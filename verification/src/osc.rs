//! The phase-accumulating oscillator: a fractional read position into a
//! fixed-length circular wavetable, advanced once per sample by an increment
//! derived from the target frequency, with linear interpolation between the
//! two bracketing table entries.

use vstd::prelude::*;

use crate::div_fixed;
use crate::AMP_LIMIT;
use crate::FIXED_BIAS;
use crate::FIXED_ONE;
use crate::FREQ_LIMIT;
use crate::MAX_TABLE_LEN;

verus! {

/// Linear interpolation between `a` and `b` at fractional position
/// `frac / FIXED_ONE`, rounded down: the fixed-point value of
/// `(1 - frac) * a + frac * b`.
pub open spec fn lerp_spec(frac: int, a: int, b: int) -> int {
    ((FIXED_ONE - frac) * a + frac * b) / (FIXED_ONE as int)
}

/// The phase index reached from `start` after `n` advances by `increment`,
/// each reduced modulo `span`.
pub open spec fn index_after(start: int, increment: int, span: int, n: nat) -> int
    decreases n,
{
    if n == 0 {
        start
    } else {
        (index_after(start, increment, span, (n - 1) as nat) + increment) % span
    }
}

/// The iterated advance has a closed form: `n` steps from `start` land on
/// `(start + n * increment) % span`.
pub proof fn lemma_index_after_closed_form(start: int, increment: int, span: int, n: nat)
    requires
        0 < span,
        0 <= start < span,
        0 <= increment,
    ensures
        index_after(start, increment, span, n) == (start + n * increment) % span,
    decreases n,
{
    if n == 0 {
        vstd::arithmetic::div_mod::lemma_small_mod(start as nat, span as nat);
    } else {
        let prev = (n - 1) as nat;
        lemma_index_after_closed_form(start, increment, span, prev);
        let reached = start + prev * increment;
        assert(((reached % span) + (increment % span)) % span == (reached + increment) % span) by {
            vstd::arithmetic::div_mod::lemma_add_mod_noop(reached, increment, span);
        }
        assert(((reached % span) + (increment % span)) % span == ((reached % span) + increment)
            % span) by {
            vstd::arithmetic::div_mod::lemma_add_mod_noop_right(reached % span, increment, span);
        }
        assert(reached + increment == start + n * increment) by {
            vstd::arithmetic::mul::lemma_mul_is_distributive_sub_other_way(
                increment,
                n as int,
                1,
            );
        }
    }
}

/// Phase-accumulation oscillator over a caller-supplied wavetable.
///
/// `index` and `index_increment` are fixed point with unit
/// [`FIXED_ONE`](crate::FIXED_ONE): an index of `k * FIXED_ONE` reads table
/// entry `k` exactly, and the increment is the per-sample phase step.
#[derive(Clone, Copy, Debug)]
pub struct WavetableOscillator {
    /// Output sample rate the oscillator was configured with.
    pub sample_rate: u32,
    /// Length of every wavetable this oscillator reads.
    pub table_len: usize,
    /// Fixed-point read position, always in `[0, table_len * FIXED_ONE)`.
    pub index: u64,
    /// Fixed-point phase step added to `index` once per sample.
    pub index_increment: u64,
}

impl WavetableOscillator {
    /// The modulus of the phase accumulator: one full table traversal.
    pub open spec fn span(self) -> int {
        self.table_len * FIXED_ONE
    }

    /// Well-formed oscillator state: positive configuration, the read
    /// position inside the table, and an increment small enough that one
    /// advance cannot overflow.
    pub open spec fn wf(self) -> bool {
        &&& 0 < self.sample_rate
        &&& 0 < self.table_len <= MAX_TABLE_LEN
        &&& self.index < self.span()
        &&& self.index_increment <= FREQ_LIMIT * MAX_TABLE_LEN
    }

    /// The phase step that frequency `frequency` demands: the table is
    /// traversed `frequency` times per second, `sample_rate` samples apart.
    pub open spec fn increment_for(self, frequency: u64) -> int {
        frequency * self.table_len / (self.sample_rate as int)
    }

    /// The oscillator after `set_frequency(frequency)`: only the increment
    /// changes.
    pub open spec fn with_frequency(self, frequency: u64) -> WavetableOscillator {
        WavetableOscillator {
            index_increment: self.increment_for(frequency) as u64,
            ..self
        }
    }

    /// The oscillator after one sample has been produced: the read position
    /// advances by the increment and wraps modulo the span.
    pub open spec fn advanced(self) -> WavetableOscillator {
        WavetableOscillator {
            index: ((self.index + self.index_increment) % (self.span() as int)) as u64,
            ..self
        }
    }

    /// Integer part of the read position: the first bracketing table entry.
    pub open spec fn read_index(self) -> int {
        self.index as int / (FIXED_ONE as int)
    }

    /// Fractional part of the read position, in `[0, FIXED_ONE)`.
    pub open spec fn read_frac(self) -> int {
        self.index as int % (FIXED_ONE as int)
    }

    /// The second bracketing table entry, wrapping past the table's end.
    pub open spec fn next_read_index(self) -> int {
        (self.read_index() + 1) % (self.table_len as int)
    }

    /// The sample this oscillator state reads from `table`: linear
    /// interpolation between the two bracketing entries.
    pub open spec fn table_sample(self, table: Seq<i64>) -> int {
        lerp_spec(
            self.read_frac(),
            table[self.read_index()] as int,
            table[self.next_read_index()] as int,
        )
    }

    /// True when every entry of `table` is within the amplitude headroom the
    /// oscillator's arithmetic accepts.
    pub open spec fn table_bounded(table: Seq<i64>) -> bool {
        forall|k: int| 0 <= k < table.len() ==> -AMP_LIMIT <= #[trigger] table[k] <= AMP_LIMIT
    }

    /// A silent oscillator: read position and phase step both zero, the
    /// configuration fixed for the oscillator's lifetime.
    pub fn new(sample_rate: u32, table_len: usize) -> (osc: WavetableOscillator)
        requires
            0 < sample_rate,
            0 < table_len <= MAX_TABLE_LEN,
        ensures
            osc.wf(),
            osc.sample_rate == sample_rate,
            osc.table_len == table_len,
            osc.index == 0,
            osc.index_increment == 0,
    {
        WavetableOscillator { sample_rate, table_len, index: 0, index_increment: 0 }
    }

    /// Retunes the oscillator: the phase step becomes
    /// `frequency * table_len / sample_rate`, and nothing else changes — in
    /// particular the read position is kept, so repeating the call with the
    /// same frequency is a no-op.
    pub fn set_frequency(&mut self, frequency: u64)
        requires
            old(self).wf(),
            frequency <= FREQ_LIMIT,
        ensures
            final(self).wf(),
            *final(self) == old(self).with_frequency(frequency),
            final(self).index_increment == old(self).increment_for(frequency),
            final(self).index == old(self).index,
    {
        proof {
            assert(frequency * self.table_len <= FREQ_LIMIT * MAX_TABLE_LEN) by (nonlinear_arith)
                requires
                    frequency <= FREQ_LIMIT,
                    0 < self.table_len <= MAX_TABLE_LEN,
            ;
            assert(frequency * self.table_len / (self.sample_rate as int)
                <= frequency * self.table_len) by {
                vstd::arithmetic::div_mod::lemma_div_nonincreasing(
                    (frequency * self.table_len) as int,
                    self.sample_rate as int,
                );
            }
            assert(frequency * self.table_len / (self.sample_rate as int) >= 0) by {
                vstd::arithmetic::div_mod::lemma_div_pos_is_pos(
                    (frequency * self.table_len) as int,
                    self.sample_rate as int,
                );
            }
        }
        self.index_increment = frequency * (self.table_len as u64) / (self.sample_rate as u64);
    }

    /// The sample at the current fractional read position: exact linear
    /// interpolation between the two nearest table entries, which never
    /// overshoots the pair's range.
    fn lerp(&self, wave_table: &[i64]) -> (sample: i64)
        requires
            self.wf(),
            wave_table@.len() == self.table_len,
            Self::table_bounded(wave_table@),
        ensures
            sample == self.table_sample(wave_table@),
            wave_table@[self.read_index()] <= wave_table@[self.next_read_index()] ==> {
                &&& wave_table@[self.read_index()] <= sample
                &&& sample <= wave_table@[self.next_read_index()]
            },
            wave_table@[self.next_read_index()] <= wave_table@[self.read_index()] ==> {
                &&& wave_table@[self.next_read_index()] <= sample
                &&& sample <= wave_table@[self.read_index()]
            },
    {
        proof {
            vstd::arithmetic::div_mod::lemma_multiply_divide_lt(
                self.index as int,
                self.table_len as int,
                FIXED_ONE as int,
            );
        }
        let truncated_index: usize = (self.index / FIXED_ONE) as usize;
        let next_index: usize = if truncated_index + 1 == self.table_len {
            proof {
                vstd::arithmetic::div_mod::lemma_mod_self_0(self.table_len as int);
            }
            0
        } else {
            proof {
                vstd::arithmetic::div_mod::lemma_small_mod(
                    (truncated_index + 1) as nat,
                    self.table_len as nat,
                );
            }
            truncated_index + 1
        };
        let next_index_weight: u64 = self.index % FIXED_ONE;
        let truncated_index_weight: u64 = FIXED_ONE - next_index_weight;

        let here: i64 = wave_table[truncated_index];
        let next: i64 = wave_table[next_index];
        proof {
            let w0 = truncated_index_weight as int;
            let w1 = next_index_weight as int;
            assert(-FIXED_BIAS <= w0 * here && w0 * here <= FIXED_BIAS
                && -FIXED_BIAS <= w1 * next && w1 * next <= FIXED_BIAS) by (nonlinear_arith)
                requires
                    0 <= w0 <= FIXED_ONE,
                    0 <= w1 <= FIXED_ONE,
                    -AMP_LIMIT <= here <= AMP_LIMIT,
                    -AMP_LIMIT <= next <= AMP_LIMIT,
            ;
        }
        let num: i64 = (truncated_index_weight as i64) * here + (next_index_weight as i64) * next;
        proof {
            let w0 = truncated_index_weight as int;
            let w1 = next_index_weight as int;
            let lo: int = if here <= next { here as int } else { next as int };
            let hi: int = if here <= next { next as int } else { here as int };
            assert(FIXED_ONE * lo <= w0 * here + w1 * next <= FIXED_ONE * hi
                && -FIXED_BIAS <= w0 * here + w1 * next <= FIXED_BIAS) by (nonlinear_arith)
                requires
                    w0 + w1 == FIXED_ONE,
                    0 <= w0,
                    0 <= w1,
                    lo <= here <= hi,
                    lo <= next <= hi,
                    -AMP_LIMIT <= lo <= hi <= AMP_LIMIT,
            ;
            assert((FIXED_ONE * lo) / (FIXED_ONE as int) == lo) by {
                vstd::arithmetic::div_mod::lemma_div_multiples_vanish(lo, FIXED_ONE as int);
            }
            assert((FIXED_ONE * hi) / (FIXED_ONE as int) == hi) by {
                vstd::arithmetic::div_mod::lemma_div_multiples_vanish(hi, FIXED_ONE as int);
            }
            vstd::arithmetic::div_mod::lemma_div_is_ordered(
                FIXED_ONE * lo,
                num as int,
                FIXED_ONE as int,
            );
            vstd::arithmetic::div_mod::lemma_div_is_ordered(
                num as int,
                FIXED_ONE * hi,
                FIXED_ONE as int,
            );
        }
        div_fixed(num)
    }

    /// Produces one output sample: reads the interpolated value at the
    /// current read position, then advances the position by the increment and
    /// wraps it modulo the table span. The pre-advance position is used for
    /// the read, the post-advance position for the next call.
    pub fn get_sample(&mut self, wave_table: &[i64]) -> (sample: i64)
        requires
            old(self).wf(),
            wave_table@.len() == old(self).table_len,
            Self::table_bounded(wave_table@),
        ensures
            final(self).wf(),
            sample == old(self).table_sample(wave_table@),
            wave_table@[old(self).read_index()] <= wave_table@[old(self).next_read_index()] ==> {
                &&& wave_table@[old(self).read_index()] <= sample
                &&& sample <= wave_table@[old(self).next_read_index()]
            },
            wave_table@[old(self).next_read_index()] <= wave_table@[old(self).read_index()] ==> {
                &&& wave_table@[old(self).next_read_index()] <= sample
                &&& sample <= wave_table@[old(self).read_index()]
            },
            *final(self) == old(self).advanced(),
            final(self).index == index_after(
                old(self).index as int,
                old(self).index_increment as int,
                old(self).span(),
                1,
            ),
    {
        proof {
            reveal_with_fuel(index_after, 2);
        }
        let sample = self.lerp(wave_table);
        let span: u64 = (self.table_len as u64) * FIXED_ONE;
        self.index = (self.index + self.index_increment) % span;
        sample
    }

    /// Law: `set_frequency` is idempotent. Setting the same frequency twice
    /// leaves the phase step exactly where one call put it, and never touches
    /// the read position, so a repeated call cannot reset the phase.
    pub proof fn lemma_set_frequency_idempotent(self, frequency: u64)
        ensures
            self.with_frequency(frequency).with_frequency(frequency)
                == self.with_frequency(frequency),
            self.with_frequency(frequency).index == self.index,
    {
    }

    /// Law: the phase accumulator is periodic. When the increment divides the
    /// span exactly, `span / increment` calls to `get_sample` return the read
    /// position to its starting value.
    pub proof fn lemma_phase_periodicity(self, n: nat)
        requires
            self.wf(),
            0 < self.index_increment,
            self.span() % (self.index_increment as int) == 0,
            n == self.span() / (self.index_increment as int),
        ensures
            index_after(self.index as int, self.index_increment as int, self.span(), n)
                == self.index,
    {
        let start = self.index as int;
        let increment = self.index_increment as int;
        let span = self.span();
        lemma_index_after_closed_form(start, increment, span, n);
        assert(n * increment == span) by {
            vstd::arithmetic::div_mod::lemma_fundamental_div_mod(span, increment);
            vstd::arithmetic::mul::lemma_mul_is_commutative(increment, n as int);
        }
        assert((start + span) % span == start % span) by {
            vstd::arithmetic::div_mod::lemma_mod_add_multiples_vanish(start, span);
        }
        vstd::arithmetic::div_mod::lemma_small_mod(start as nat, span as nat);
    }

    /// Read accessor for the fixed-point phase position.
    pub fn current_index(&self) -> (index: u64)
        ensures
            index == self.index,
    {
        self.index
    }

    /// Read accessor for the fixed-point per-sample phase step.
    pub fn current_increment(&self) -> (increment: u64)
        ensures
            increment == self.index_increment,
    {
        self.index_increment
    }
}

} // verus!
