//! Fixed-point units shared by the whole crate.
//!
//! Ages, rates, durations, sizes and canvas coordinates are integers counted
//! in ticks of one millionth: `FP_ONE` ticks make one age-unit, one second,
//! or one canvas pixel.

use vstd::prelude::*;

verus! {

/// Number of ticks in one whole unit (one age-unit, one second, one pixel).
pub const FP_ONE: u64 = 1_000_000;

/// Age lost by every trail point in one update: `rate` age-units per second
/// times `dt` seconds, both in ticks, truncated to whole ticks.
pub open spec fn decay_amount(rate: u64, dt: u64) -> int {
    (rate * dt) / (FP_ONE as int)
}

/// Computes `decay_amount(rate, dt)`, saturated at one whole age-unit: a
/// point never holds more than `FP_ONE` ticks of age, so any larger loss
/// prunes it just the same.
pub fn decay_ticks(rate: u64, dt: u64) -> (d: u64)
    ensures
        decay_amount(rate, dt) < FP_ONE ==> d == decay_amount(rate, dt),
        decay_amount(rate, dt) >= FP_ONE ==> d == FP_ONE,
{
    proof {
        assert((rate as u128) * (dt as u128) <= 0xffff_ffff_ffff_ffffu128 * 0xffff_ffff_ffff_ffffu128)
            by (nonlinear_arith)
            requires
                rate as u128 <= 0xffff_ffff_ffff_ffffu128,
                dt as u128 <= 0xffff_ffff_ffff_ffffu128,
        ;
    }
    let q: u128 = ((rate as u128) * (dt as u128)) / (FP_ONE as u128);
    if q >= FP_ONE as u128 {
        FP_ONE
    } else {
        q as u64
    }
}

/// Opacity, in steps of one 255th of full alpha, of a point whose remaining
/// age is `age` ticks: full age is fully opaque, zero age is transparent.
pub open spec fn alpha_of(age: u64) -> int {
    (age * 255) / (FP_ONE as int)
}

/// Computes `alpha_of(age)` as the byte a color's alpha channel holds.
pub fn alpha_byte(age: u64) -> (a: u8)
    requires
        age <= FP_ONE,
    ensures
        a == alpha_of(age),
{
    (((age as u128) * 255) / (FP_ONE as u128)) as u8
}

/// An RGBA color, one byte per channel.
#[derive(Clone, Copy, PartialEq, Eq, Structural, Debug)]
pub struct Rgba {
    pub r: u8,
    pub g: u8,
    pub b: u8,
    pub a: u8,
}

} // verus!
