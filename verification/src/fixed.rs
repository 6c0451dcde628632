//! Fixed-point quantities.
//!
//! Every fractional value of the simulation (currency, rewards, difficulty
//! accumulators, elapsed time) is a non-negative amount counted in
//! thousandths of a unit, called millis: `0.75` units is `750` millis and
//! `2.5` units is `2500` millis.

use vstd::prelude::*;

verus! {

/// A non-negative fixed-point quantity, counted in thousandths of a unit.
#[derive(Clone, Copy, PartialEq, Eq, Structural, Debug)]
pub struct Fixed {
    pub millis: u64,
}

impl Fixed {
    /// The zero quantity.
    pub fn zero() -> (r: Fixed)
        ensures
            r.millis == 0,
    {
        Fixed { millis: 0 }
    }

    /// The quantity of `m` thousandths of a unit.
    pub fn from_millis(m: u64) -> (r: Fixed)
        ensures
            r.millis == m,
    {
        Fixed { millis: m }
    }
}

/// The product of two `u64` values always fits in a `u128`.
pub proof fn lemma_u64_mul_fits_u128(a: u64, b: u64)
    ensures
        a * b <= u128::MAX,
{
    assert(a * b <= u64::MAX * u64::MAX) by (nonlinear_arith)
        requires
            a <= u64::MAX,
            b <= u64::MAX,
    ;
}

} // verus!
