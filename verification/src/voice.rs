//! The voice: a phase oscillator pitched by a note-to-frequency mapping and
//! gated by an envelope. The mapping is `2^((note + K) / 12)` for the tuning
//! constant `K = 36.376316`; here it is held exactly in fixed point as twelve
//! semitone values of the lowest octave, doubled once per octave above it.

use vstd::prelude::*;

use vstd::arithmetic::power2::pow2;

use crate::div_fixed;
use crate::envelope::EnvelopeGate;
use crate::osc::WavetableOscillator;
use crate::AMP_LIMIT;
use crate::FIXED_BIAS;
use crate::FIXED_ONE;
use crate::FREQ_LIMIT;
use crate::SAMPLE_RATE;
use crate::WAVE_TABLE_SIZE;

verus! {

/// Largest semitone value in the tuning table.
pub const SEMITONE_CEIL: u64 = 1011473;

/// `pow2(21)`: the octave factor of the highest note the mapping accepts.
pub const OCTAVE_CEIL: u64 = 2097152;

/// Fixed-point value of `2^((r + 36.376316) / 12)` for semitone `r` of the
/// lowest octave, `0 <= r < 12`: the tuning table the note mapping rests on.
pub open spec fn semitone_value(r: int) -> int {
    if r == 0 {
        535809
    } else if r == 1 {
        567670
    } else if r == 2 {
        601425
    } else if r == 3 {
        637188
    } else if r == 4 {
        675077
    } else if r == 5 {
        715219
    } else if r == 6 {
        757749
    } else if r == 7 {
        802807
    } else if r == 8 {
        850544
    } else if r == 9 {
        901120
    } else if r == 10 {
        954703
    } else {
        1011473
    }
}

/// Fixed-point frequency of note `n`: the semitone value of `n % 12`, doubled
/// once per octave `n / 12`.
pub open spec fn note_frequency(n: int) -> int
    recommends
        0 <= n,
{
    semitone_value(n % 12) * pow2((n / 12) as nat)
}

/// One semitone up is always a higher frequency: within an octave the tuning
/// table increases, and across the octave boundary the doubled lowest
/// semitone exceeds the highest one.
proof fn lemma_note_frequency_step(n: int)
    requires
        0 <= n,
    ensures
        note_frequency(n) < note_frequency(n + 1),
{
    let r = n % 12;
    let q = n / 12;
    vstd::arithmetic::div_mod::lemma_mod_division_less_than_divisor(n, 12);
    vstd::arithmetic::div_mod::lemma_fundamental_div_mod(n, 12);
    vstd::arithmetic::power2::lemma_pow2_pos(q as nat);
    if r < 11 {
        vstd::arithmetic::div_mod::lemma_fundamental_div_mod_converse(n + 1, 12, q, r + 1);
        vstd::arithmetic::mul::lemma_mul_strict_inequality(
            semitone_value(r),
            semitone_value(r + 1),
            pow2(q as nat) as int,
        );
        vstd::arithmetic::mul::lemma_mul_is_commutative(
            semitone_value(r),
            pow2(q as nat) as int,
        );
        vstd::arithmetic::mul::lemma_mul_is_commutative(
            semitone_value(r + 1),
            pow2(q as nat) as int,
        );
    } else {
        vstd::arithmetic::div_mod::lemma_fundamental_div_mod_converse(n + 1, 12, q + 1, 0);
        assert(pow2((q + 1) as nat) == 2 * pow2(q as nat)) by {
            vstd::arithmetic::power2::lemma_pow2_adds(q as nat, 1);
            vstd::arithmetic::power2::lemma2_to64();
        }
        assert(semitone_value(0) * (2 * pow2(q as nat)) == (2 * semitone_value(0)) * pow2(
            q as nat,
        )) by {
            vstd::arithmetic::mul::lemma_mul_is_associative(
                semitone_value(0),
                2,
                pow2(q as nat) as int,
            );
            vstd::arithmetic::mul::lemma_mul_is_commutative(semitone_value(0), 2);
        }
        vstd::arithmetic::mul::lemma_mul_strict_inequality(
            semitone_value(11),
            2 * semitone_value(0),
            pow2(q as nat) as int,
        );
        vstd::arithmetic::mul::lemma_mul_is_commutative(
            semitone_value(11),
            pow2(q as nat) as int,
        );
        vstd::arithmetic::mul::lemma_mul_is_commutative(
            2 * semitone_value(0),
            pow2(q as nat) as int,
        );
    }
}

/// Law: the note mapping is strictly increasing — a higher note always maps
/// to a strictly higher frequency.
pub proof fn lemma_note_frequency_strictly_increasing(n1: int, n2: int)
    requires
        0 <= n1 < n2,
    ensures
        note_frequency(n1) < note_frequency(n2),
    decreases n2 - n1,
{
    lemma_note_frequency_step(n1);
    if n1 + 1 < n2 {
        lemma_note_frequency_strictly_increasing(n1 + 1, n2);
    }
}

/// Every note a `u8` can carry maps to a positive frequency no greater than
/// `SEMITONE_CEIL * OCTAVE_CEIL`, which is well under `FREQ_LIMIT`.
pub proof fn lemma_note_frequency_bounds(n: int)
    requires
        0 <= n < 256,
    ensures
        0 < note_frequency(n) <= SEMITONE_CEIL * OCTAVE_CEIL,
        note_frequency(n) <= FREQ_LIMIT,
{
    let r = n % 12;
    let q = n / 12;
    vstd::arithmetic::div_mod::lemma_mod_division_less_than_divisor(n, 12);
    vstd::arithmetic::div_mod::lemma_div_is_ordered(n, 255, 12);
    vstd::arithmetic::div_mod::lemma_div_pos_is_pos(n, 12);
    vstd::arithmetic::power2::lemma_pow2_pos(q as nat);
    assert(pow2(q as nat) <= OCTAVE_CEIL) by {
        if q < 21 {
            vstd::arithmetic::power2::lemma_pow2_strictly_increases(q as nat, 21);
        }
        vstd::arithmetic::power2::lemma2_to64();
    }
    vstd::arithmetic::mul::lemma_mul_strictly_positive(semitone_value(r), pow2(q as nat) as int);
    vstd::arithmetic::mul::lemma_mul_upper_bound(
        semitone_value(r),
        SEMITONE_CEIL as int,
        pow2(q as nat) as int,
        OCTAVE_CEIL as int,
    );
}

/// Scales a sample by a fixed-point gain, rounding down:
/// `sample * gain / FIXED_ONE`. A gain of at most `FIXED_ONE` never
/// amplifies: the result stays between zero and the sample.
fn apply_gain(sample: i64, gain: u64) -> (scaled: i64)
    requires
        -AMP_LIMIT <= sample <= AMP_LIMIT,
        gain <= FIXED_ONE,
    ensures
        scaled == sample * gain / (FIXED_ONE as int),
        0 <= sample ==> 0 <= scaled <= sample,
        sample <= 0 ==> sample <= scaled <= 0,
{
    proof {
        assert(-FIXED_BIAS <= sample * gain <= FIXED_BIAS
            && (0 <= sample ==> 0 <= sample * gain <= sample * FIXED_ONE)
            && (sample <= 0 ==> sample * FIXED_ONE <= sample * gain <= 0)) by (nonlinear_arith)
            requires
                -AMP_LIMIT <= sample <= AMP_LIMIT,
                0 <= gain <= FIXED_ONE,
        ;
        assert((sample * FIXED_ONE) / (FIXED_ONE as int) == sample) by {
            vstd::arithmetic::mul::lemma_mul_is_commutative(sample as int, FIXED_ONE as int);
            vstd::arithmetic::div_mod::lemma_div_multiples_vanish(
                sample as int,
                FIXED_ONE as int,
            );
        }
        assert(0int / (FIXED_ONE as int) == 0) by {
            vstd::arithmetic::div_mod::lemma_div_of0(FIXED_ONE as int);
        }
        if 0 <= sample {
            vstd::arithmetic::div_mod::lemma_div_is_ordered(0, sample * gain, FIXED_ONE as int);
            vstd::arithmetic::div_mod::lemma_div_is_ordered(
                sample * gain,
                sample * FIXED_ONE,
                FIXED_ONE as int,
            );
        } else {
            vstd::arithmetic::div_mod::lemma_div_is_ordered(
                sample * FIXED_ONE,
                sample * gain,
                FIXED_ONE as int,
            );
            vstd::arithmetic::div_mod::lemma_div_is_ordered(sample * gain, 0, FIXED_ONE as int);
        }
    }
    div_fixed(sample * (gain as i64))
}

/// One playable voice: a phase oscillator owned together with an envelope
/// gate, pitched by note events and gated sample by sample.
#[derive(Clone, Copy, Debug)]
pub struct Oscillator<E: EnvelopeGate> {
    /// The phase-accumulating oscillator that produces the raw waveform.
    pub wt_osc: WavetableOscillator,
    /// The envelope gate whose gain scales every output sample.
    pub env_filter: E,
}

impl<E: EnvelopeGate> Oscillator<E> {
    /// Well-formed voice: oscillator and gate each keep their own invariant.
    pub open spec fn wf(self) -> bool {
        self.wt_osc.wf() && self.env_filter.inv()
    }

    /// An idle voice: silent oscillator at the system's sample rate and
    /// table size, envelope gate not pressed.
    pub fn new() -> (voice: Oscillator<E>)
        ensures
            voice.wf(),
            !voice.env_filter.pressed_view(),
            !voice.env_filter.held_view(),
            voice.wt_osc.sample_rate == SAMPLE_RATE,
            voice.wt_osc.table_len == WAVE_TABLE_SIZE,
            voice.wt_osc.index == 0,
            voice.wt_osc.index_increment == 0,
    {
        Oscillator {
            wt_osc: WavetableOscillator::new(SAMPLE_RATE, WAVE_TABLE_SIZE),
            env_filter: E::idle(),
        }
    }

    /// True iff the envelope gate reports itself pressed; the voice holds no
    /// flag of its own.
    pub fn is_pressed(&self) -> (pressed: bool)
        requires
            self.wf(),
        ensures
            pressed == self.env_filter.pressed_view(),
    {
        self.env_filter.pressed()
    }

    /// The fixed-point frequency of a note: `2^((midi_note + K) / 12)` for
    /// the tuning constant `K = 36.376316`, exactly as `note_frequency`
    /// states it.
    pub fn get_freq(midi_note: u8) -> (frequency: u64)
        ensures
            frequency == note_frequency(midi_note as int),
            0 < frequency <= SEMITONE_CEIL * OCTAVE_CEIL,
    {
        proof {
            lemma_note_frequency_bounds(midi_note as int);
        }
        let semitone: u8 = midi_note % 12;
        let octave: u8 = midi_note / 12;
        let base: u64 = match semitone {
            0 => 535809,
            1 => 567670,
            2 => 601425,
            3 => 637188,
            4 => 675077,
            5 => 715219,
            6 => 757749,
            7 => 802807,
            8 => 850544,
            9 => 901120,
            10 => 954703,
            _ => 1011473,
        };
        proof {
            assert(base == semitone_value(midi_note as int % 12));
            vstd::bits::lemma_u64_pow2_no_overflow(octave as nat);
            vstd::bits::lemma_u64_shl_is_mul(1u64, octave as u64);
            assert(pow2(octave as nat) <= OCTAVE_CEIL) by {
                if octave < 21 {
                    vstd::arithmetic::power2::lemma_pow2_strictly_increases(octave as nat, 21);
                }
                vstd::arithmetic::power2::lemma2_to64();
            }
            vstd::arithmetic::mul::lemma_mul_upper_bound(
                base as int,
                SEMITONE_CEIL as int,
                pow2(octave as nat) as int,
                OCTAVE_CEIL as int,
            );
        }
        let octave_factor: u64 = 1u64 << (octave as u64);
        base * octave_factor
    }

    /// Presses the voice: the envelope gate begins its attack, and the
    /// oscillator is retuned to the note's frequency — in that order. The
    /// read position is kept, so the waveform continues without a jump.
    pub fn press(&mut self, midi_note: u8)
        requires
            old(self).wf(),
        ensures
            final(self).wf(),
            final(self).env_filter.pressed_view(),
            final(self).env_filter.held_view(),
            final(self).wt_osc == old(self).wt_osc.with_frequency(
                note_frequency(midi_note as int) as u64,
            ),
            final(self).wt_osc.index == old(self).wt_osc.index,
    {
        self.env_filter.press();
        let frequency = Self::get_freq(midi_note);
        self.wt_osc.set_frequency(frequency);
    }

    /// Releases the voice: the envelope gate begins its release phase — it
    /// is no longer held, though it may keep sounding while its release
    /// plays out — and the oscillator is untouched, still tuned to its last
    /// frequency.
    pub fn release(&mut self)
        requires
            old(self).wf(),
        ensures
            final(self).wf(),
            !final(self).env_filter.held_view(),
            final(self).wt_osc == old(self).wt_osc,
    {
        self.env_filter.release();
    }

    /// Produces one gated output sample: the oscillator's interpolated
    /// sample, scaled by the envelope gate's current gain.
    pub fn get_sample(&mut self, wave_table: &[i64]) -> (sample: i64)
        requires
            old(self).wf(),
            wave_table@.len() == old(self).wt_osc.table_len,
            WavetableOscillator::table_bounded(wave_table@),
        ensures
            final(self).wf(),
            sample == old(self).wt_osc.table_sample(wave_table@)
                * old(self).env_filter.gain_view() / (FIXED_ONE as int),
            0 <= old(self).wt_osc.table_sample(wave_table@) ==> {
                &&& 0 <= sample
                &&& sample <= old(self).wt_osc.table_sample(wave_table@)
            },
            old(self).wt_osc.table_sample(wave_table@) <= 0 ==> {
                &&& old(self).wt_osc.table_sample(wave_table@) <= sample
                &&& sample <= 0
            },
            final(self).wt_osc == old(self).wt_osc.advanced(),
            final(self).env_filter.held_view() == old(self).env_filter.held_view(),
    {
        let raw = self.wt_osc.get_sample(wave_table);
        let gain = self.env_filter.current_gain();
        apply_gain(raw, gain)
    }
}

} // verus!
