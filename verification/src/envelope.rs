//! The envelope gate a voice is gated by: a capability interface of
//! `press` / `release` / `pressed` / `current_gain`, plus one simple
//! conforming implementation. The internal timing and shape of a full
//! attack/decay/sustain/release envelope belong to the implementor; the voice
//! relies only on the contracts stated here.

use vstd::prelude::*;

use crate::FIXED_ONE;

verus! {

/// How long [`CountdownGate::idle`] keeps sounding after a release, in
/// samples (a tenth of a second at the system's output rate).
pub const DEFAULT_RELEASE_SAMPLES: u32 = 4410;

/// An amplitude gate driven by note events.
///
/// `press` begins the attack, `release` begins the release phase, `pressed`
/// reports whether the envelope still sounds (attack, decay, sustain, or a
/// not-yet-finished release), and `current_gain` yields the instantaneous
/// amplitude multiplier — fixed point, `FIXED_ONE` meaning unity — and
/// advances the envelope's internal clock by one sample.
pub trait EnvelopeGate: Sized {
    /// The implementor's internal well-formedness; every operation keeps it.
    spec fn inv(&self) -> bool;

    /// Whether the envelope currently reports itself pressed.
    spec fn pressed_view(&self) -> bool;

    /// Whether the envelope is held: `press` raises this, `release` lowers
    /// it. Distinct from `pressed_view`, which stays true through a
    /// not-yet-finished release ramp.
    spec fn held_view(&self) -> bool;

    /// The instantaneous amplitude multiplier, in `[0, FIXED_ONE]`.
    spec fn gain_view(&self) -> int;

    /// A gate that has never been pressed.
    fn idle() -> (gate: Self)
        ensures
            gate.inv(),
            !gate.pressed_view(),
            !gate.held_view(),
    ;

    /// Begins the attack phase; the envelope is held and reports itself
    /// pressed afterwards.
    fn press(&mut self)
        requires
            old(self).inv(),
        ensures
            final(self).inv(),
            final(self).pressed_view(),
            final(self).held_view(),
    ;

    /// Begins the release phase: the envelope is no longer held, whatever
    /// still sounds of it.
    fn release(&mut self)
        requires
            old(self).inv(),
        ensures
            final(self).inv(),
            !final(self).held_view(),
    ;

    /// Reports whether the envelope still sounds.
    fn pressed(&self) -> (pressed: bool)
        requires
            self.inv(),
        ensures
            pressed == self.pressed_view(),
    ;

    /// Returns the current amplitude multiplier and advances the envelope by
    /// one sample.
    ///
    /// The gain is read exactly once per rendered sample, so marking time is
    /// folded into the read (hence `&mut self`) instead of standing as a
    /// separate per-sample tick beside a read-only accessor; whether the
    /// envelope is held is never changed by it.
    fn current_gain(&mut self) -> (gain: u64)
        requires
            old(self).inv(),
        ensures
            final(self).inv(),
            gain == old(self).gain_view(),
            gain <= FIXED_ONE,
            final(self).held_view() == old(self).held_view(),
    ;
}

/// The simplest conforming gate: unity gain while held, then a linear ramp
/// down to silence over a fixed number of samples after release.
#[derive(Clone, Copy, Debug)]
pub struct CountdownGate {
    /// True between `press` and the next `release`.
    pub held: bool,
    /// Samples of the release ramp still to play; zero while held or idle.
    pub release_left: u32,
    /// Total length of the release ramp, in samples.
    pub release_len: u32,
}

impl CountdownGate {
    /// An idle gate whose release ramp lasts `release_len` samples.
    pub fn with_release(release_len: u32) -> (gate: CountdownGate)
        requires
            0 < release_len,
        ensures
            gate.inv(),
            !gate.pressed_view(),
            !gate.held_view(),
            gate.release_len == release_len,
    {
        CountdownGate { held: false, release_left: 0, release_len }
    }
}

impl EnvelopeGate for CountdownGate {
    open spec fn inv(&self) -> bool {
        &&& 0 < self.release_len
        &&& self.release_left <= self.release_len
        &&& self.held ==> self.release_left == 0
    }

    open spec fn pressed_view(&self) -> bool {
        self.held || self.release_left > 0
    }

    open spec fn held_view(&self) -> bool {
        self.held
    }

    open spec fn gain_view(&self) -> int {
        if self.held {
            FIXED_ONE as int
        } else {
            FIXED_ONE * self.release_left / (self.release_len as int)
        }
    }

    fn idle() -> (gate: Self) {
        CountdownGate { held: false, release_left: 0, release_len: DEFAULT_RELEASE_SAMPLES }
    }

    fn press(&mut self)
        ensures
            final(self).held,
            final(self).release_left == 0,
            final(self).release_len == old(self).release_len,
    {
        self.held = true;
        self.release_left = 0;
    }

    fn release(&mut self)
        ensures
            !final(self).held,
            final(self).release_len == old(self).release_len,
            old(self).held ==> final(self).release_left == old(self).release_len,
            !old(self).held ==> final(self).release_left == old(self).release_left,
            old(self).pressed_view() ==> final(self).pressed_view(),
            !old(self).pressed_view() ==> !final(self).pressed_view(),
    {
        if self.held {
            self.held = false;
            self.release_left = self.release_len;
        }
    }

    fn pressed(&self) -> (pressed: bool) {
        self.held || self.release_left > 0
    }

    fn current_gain(&mut self) -> (gain: u64)
        ensures
            final(self).held == old(self).held,
            final(self).release_len == old(self).release_len,
            old(self).held || old(self).release_left == 0 ==> *final(self) == *old(self),
            !old(self).held && old(self).release_left > 0 ==> final(self).release_left == old(
                self,
            ).release_left - 1,
    {
        if self.held {
            FIXED_ONE
        } else {
            proof {
                assert(FIXED_ONE * self.release_left <= FIXED_ONE * self.release_len)
                    by (nonlinear_arith)
                    requires
                        self.release_left <= self.release_len,
                ;
                vstd::arithmetic::div_mod::lemma_div_is_ordered(
                    FIXED_ONE * self.release_left,
                    FIXED_ONE * self.release_len,
                    self.release_len as int,
                );
                vstd::arithmetic::div_mod::lemma_div_multiples_vanish(
                    FIXED_ONE as int,
                    self.release_len as int,
                );
                vstd::arithmetic::mul::lemma_mul_is_commutative(
                    FIXED_ONE as int,
                    self.release_len as int,
                );
            }
            let gain: u64 = FIXED_ONE * (self.release_left as u64) / (self.release_len as u64);
            if self.release_left > 0 {
                self.release_left = self.release_left - 1;
            }
            gain
        }
    }
}

} // verus!
