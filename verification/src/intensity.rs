//! Normalized actuator intensities and their scaling to device-native raw
//! values.
//!
//! An intensity is a value in [0, 1]; a device profile gives each actuator a
//! step resolution (its maximum raw integer value). The raw value sent to the
//! hardware is the intensity scaled by the step resolution, rounded half up
//! and clamped to the valid raw range.

use vstd::arithmetic::div_mod::{lemma_div_pos_is_pos, lemma_multiply_divide_lt};
use vstd::prelude::*;

verus! {

/// A normalized intensity in [0, 1], held exactly as the fraction
/// `num / den`.
#[derive(Clone, Copy, PartialEq, Eq, Structural, Debug)]
pub struct Intensity {
    pub num: u16,
    pub den: u16,
}

impl Intensity {
    /// The fraction denotes a value in [0, 1].
    pub open spec fn valid(self) -> bool {
        0 < self.den && self.num <= self.den
    }

    pub fn new(num: u16, den: u16) -> (x: Intensity)
        requires
            0 < den,
            num <= den,
        ensures
            x == (Intensity { num, den }),
            x.valid(),
    {
        Intensity { num, den }
    }

    /// Intensity 0: what a stop command requests of every actuator.
    pub fn zero() -> (x: Intensity)
        ensures
            x == (Intensity { num: 0u16, den: 1u16 }),
            x.valid(),
    {
        Intensity { num: 0, den: 1 }
    }
}

/// Round-half-up of the rational `(num / den) * step`:
/// `floor(num * step / den + 1/2)`.
pub open spec fn round_half_up(num: int, den: int, step: int) -> int {
    (2 * num * step + den) / (2 * den)
}

/// The device-native raw value for intensity `x` at step resolution `step`:
/// round-half-up(x * step), clamped to [0, step].
pub open spec fn raw_of(x: Intensity, step: int) -> int {
    let r = round_half_up(x.num as int, x.den as int, step);
    if r < 0 {
        0
    } else if r > step {
        step
    } else {
        r
    }
}

/// For a valid intensity the rounded value already lies in [0, step], so the
/// clamp never alters it.
pub proof fn lemma_raw_of_in_range(x: Intensity, step: int)
    requires
        x.valid(),
        0 < step,
    ensures
        0 <= round_half_up(x.num as int, x.den as int, step) <= step,
        raw_of(x, step) == round_half_up(x.num as int, x.den as int, step),
{
    let num = x.num as int;
    let den = x.den as int;
    let n = 2 * num * step + den;
    let d = 2 * den;
    assert(0 <= n) by (nonlinear_arith)
        requires
            0 <= num,
            0 < den,
            0 < step,
            n == 2 * num * step + den,
    ;
    lemma_div_pos_is_pos(n, d);
    assert(n < d * (step + 1)) by (nonlinear_arith)
        requires
            num <= den,
            0 < den,
            0 < step,
            n == 2 * num * step + den,
            d == 2 * den,
    ;
    lemma_multiply_divide_lt(n, d, step + 1);
}

/// Computes the raw value for intensity `x` at step resolution `step_max`.
pub fn raw_value(x: &Intensity, step_max: u16) -> (r: u16)
    requires
        x.valid(),
        0 < step_max,
    ensures
        r == raw_of(*x, step_max as int),
        r <= step_max,
{
    proof {
        lemma_raw_of_in_range(*x, step_max as int);
        assert(2 * (x.num as int) * (step_max as int) + (x.den as int) < 0x2_0000_0000)
            by (nonlinear_arith)
            requires
                0 <= x.num <= 0xffff,
                0 < step_max <= 0xffff,
                0 < x.den <= 0xffff,
        ;
    }
    let n: u64 = 2 * (x.num as u64) * (step_max as u64) + (x.den as u64);
    let d: u64 = 2 * (x.den as u64);
    let q: u64 = n / d;
    q as u16
}

} // verus!
