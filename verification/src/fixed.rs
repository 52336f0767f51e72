//! Millipixel fixed-point arithmetic.
//!
//! One pixel is `PIXEL` millipixels. Positions and velocities are stored as
//! `i64` millipixel counts (velocities in millipixels per millisecond), and
//! the few places where the game works in whole pixels — edge coordinates and
//! the rounded displacement of one integration step — go through the helpers
//! here, whose contracts state the conversion exactly.

use vstd::prelude::*;

verus! {

/// Millipixels in one pixel.
pub const PIXEL: i64 = 1000;

/// Millipixels truncated to whole pixels (toward zero), as a cast of the
/// corresponding real coordinate to an integer would do.
pub open spec fn to_px(v: int) -> int {
    if v >= 0 {
        v / (PIXEL as int)
    } else {
        -((-v) / (PIXEL as int))
    }
}

/// Millipixels rounded to the nearest whole pixel, halves away from zero.
pub open spec fn round_px(v: int) -> int {
    if v >= 0 {
        (v + (PIXEL as int) / 2) / (PIXEL as int)
    } else {
        -((-v + (PIXEL as int) / 2) / (PIXEL as int))
    }
}

/// Truncate a millipixel coordinate to whole pixels.
pub fn mpx_to_px(v: i64) -> (r: i64)
    requires
        v > i64::MIN,
    ensures
        r == to_px(v as int),
{
    if v >= 0 {
        ((v as u64) / (PIXEL as u64)) as i64
    } else {
        -((((-v) as u64) / (PIXEL as u64)) as i64)
    }
}

/// Round a millipixel quantity to the nearest whole pixel, halves away from
/// zero.
pub fn mpx_round_px(v: i64) -> (r: i64)
    requires
        v + PIXEL / 2 <= i64::MAX,
        i64::MIN + PIXEL / 2 < v,
    ensures
        r == round_px(v as int),
{
    if v >= 0 {
        (((v as u64) + (PIXEL as u64) / 2) / (PIXEL as u64)) as i64
    } else {
        -(((((-v) as u64) + (PIXEL as u64) / 2) / (PIXEL as u64)) as i64)
    }
}

/// A product of two bounded factors is bounded by the product of the
/// bounds, and keeps the sign of the first factor.
pub proof fn lemma_mul_bounds(v: int, d: int, vb: int, db: int) by (nonlinear_arith)
    requires
        -vb <= v <= vb,
        0 <= d <= db,
        0 <= vb,
    ensures
        -(vb * db) <= v * d <= vb * db,
        v >= 0 ==> v * d >= 0,
        v <= 0 ==> v * d <= 0,
{
}

/// Multiplying both sides of an ordering by a nonnegative factor keeps
/// it.
pub proof fn lemma_mul_le(a: int, b: int, m: int) by (nonlinear_arith)
    requires
        a <= b,
        0 <= m,
    ensures
        a * m <= b * m,
{
}

/// Rounding moves a quantity by at most half a pixel's worth of
/// millipixels.
pub proof fn lemma_round_px_close(v: int)
    ensures
        v - PIXEL / 2 <= round_px(v) * PIXEL <= v + PIXEL / 2,
{
    if v >= 0 {
        assert(v + PIXEL / 2 - (PIXEL - 1) <= ((v + (PIXEL as int) / 2) / (PIXEL as int)) * PIXEL
            <= v + PIXEL / 2) by (nonlinear_arith);
    } else {
        assert(-v + PIXEL / 2 - (PIXEL - 1) <= ((-v + (PIXEL as int) / 2) / (PIXEL as int))
            * PIXEL <= -v + PIXEL / 2) by (nonlinear_arith);
    }
}

/// Truncation moves a coordinate by less than one pixel's worth of
/// millipixels.
pub proof fn lemma_to_px_close(v: int)
    ensures
        v - (PIXEL - 1) <= to_px(v) * PIXEL <= v + (PIXEL - 1),
{
    if v >= 0 {
        assert(v - (PIXEL - 1) <= (v / (PIXEL as int)) * PIXEL <= v) by (nonlinear_arith);
    } else {
        assert((-v) - (PIXEL - 1) <= ((-v) / (PIXEL as int)) * PIXEL <= -v) by (nonlinear_arith);
    }
}

} // verus!
