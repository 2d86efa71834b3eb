//! Wavetable synthesis kernel: a phase-accumulating oscillator with linear
//! interpolation, a note-to-frequency mapping, and a voice that gates the
//! oscillator's output with an envelope.
//!
//! All real-valued quantities (phase, frequency, gain, sample amplitude) are
//! held in fixed point with [`FIXED_ONE`] as the unit, so that the phase
//! arithmetic, the interpolation, and the tuning rules can be stated and
//! proved exactly.

use vstd::prelude::*;

pub mod envelope;
pub mod osc;
pub mod voice;

pub use envelope::CountdownGate;
pub use envelope::EnvelopeGate;
pub use osc::WavetableOscillator;
pub use voice::Oscillator;

verus! {

/// Fixed-point unit: the integer that stands for the real value 1.0.
///
/// A phase index of `k * FIXED_ONE` reads table entry `k` exactly; a gain of
/// `FIXED_ONE` passes a sample through unchanged.
pub const FIXED_ONE: u64 = 65536;

/// Largest sample magnitude the oscillator accepts in a wavetable entry.
///
/// Full scale (the real value 1.0) is `FIXED_ONE`; this limit leaves generous
/// headroom while keeping every interpolation product inside `i64`.
pub const AMP_LIMIT: i64 = 4294967296;

/// `AMP_LIMIT * FIXED_ONE`: the bias used to evaluate a floor division of a
/// possibly negative fixed-point product with unsigned arithmetic.
pub const FIXED_BIAS: i64 = 4294967296 * 65536;

/// Largest fixed-point frequency `set_frequency` accepts; keeps the phase
/// increment computation inside `u64` for every permitted table length.
pub const FREQ_LIMIT: u64 = 35184372088832;

/// Largest wavetable length an oscillator can be configured with.
pub const MAX_TABLE_LEN: usize = 65536;

/// Output sample rate of the system, in samples per second.
pub const SAMPLE_RATE: u32 = 44100;

/// Number of entries in the wavetables this system's voices read.
pub const WAVE_TABLE_SIZE: usize = 64;

/// One harmonic partial of a waveform, described relative to the fundamental.
///
/// Used only as input to external wavetable construction; the oscillator
/// itself never reads it. Both fields are fixed point with unit
/// [`FIXED_ONE`].
#[derive(Clone, Copy, Debug)]
pub struct Overtone {
    /// Frequency of the overtone as a ratio to the fundamental.
    pub overtone: u64,
    /// Amplitude contribution relative to the total volume (1.0).
    pub volume: u64,
}

impl Overtone {
    /// True when the partial describes a positive frequency ratio.
    pub open spec fn wf(self) -> bool {
        self.overtone > 0
    }

    /// Describes one partial: a frequency ratio and its relative volume.
    pub fn new(overtone: u64, volume: u64) -> (partial: Overtone)
        requires
            overtone > 0,
        ensures
            partial.wf(),
            partial.overtone == overtone,
            partial.volume == volume,
    {
        Overtone { overtone, volume }
    }
}

/// Floor division of a fixed-point product by [`FIXED_ONE`].
///
/// The quotient is evaluated through a bias so that only unsigned division is
/// needed: for `num >= -FIXED_BIAS`, `(num + FIXED_BIAS) / FIXED_ONE` equals
/// `num / FIXED_ONE + AMP_LIMIT` exactly.
pub(crate) fn div_fixed(num: i64) -> (quotient: i64)
    requires
        -FIXED_BIAS <= num <= FIXED_BIAS,
    ensures
        quotient == num as int / FIXED_ONE as int,
{
    proof {
        vstd::arithmetic::div_mod::lemma_hoist_over_denominator(
            num as int,
            AMP_LIMIT as int,
            FIXED_ONE as nat,
        );
    }
    let biased: u64 = (num + FIXED_BIAS) as u64;
    let shifted: u64 = biased / FIXED_ONE;
    (shifted as i64) - AMP_LIMIT
}

} // verus!
