//! Decimal fixed-point fractions.
//!
//! Intensities, alphas and color components are stored as `u32` multiples of
//! `1 / UNIT`, so `UNIT` itself stands for `1.0`.  Pulse positions and speeds
//! use the same scale as signed `i64` values (one pixel is `UNIT` position
//! units).  The scale is decimal, so every constant of the pipeline (`0.9`,
//! `0.95`, `0.6`, `0.3`, `0.1`) is represented exactly.

use vstd::prelude::*;

verus! {

/// The fixed-point representation of `1.0`.
pub const UNIT: u32 = 10000;

/// Largest magnitude a pulse speed may take: a thousand pixels per tick.
pub const SPEED_LIMIT: i64 = 10000000;

/// Pulse positions saturate at this magnitude (a hundred million pixels) so
/// that advancing a pulse can never overflow.
pub const POSITION_LIMIT: i64 = 1000000000000;

/// `POSITION_LIMIT` in whole pixels: `POSITION_LIMIT == POSITION_LIMIT_PIXELS * UNIT`.
pub const POSITION_LIMIT_PIXELS: i64 = 100000000;

/// A fraction in `[0.0, 1.0]`.
pub open spec fn is_unit(v: u32) -> bool {
    v <= UNIT
}

/// `v` clamped into `[0, UNIT]`, over the mathematical integers.
pub open spec fn spec_clamp_unit(v: int) -> int {
    if v > UNIT { UNIT as int } else if v < 0 { 0 } else { v }
}

/// Clamp an intensity into `[0, UNIT]`.
pub fn clamp_unit(v: u32) -> (r: u32)
    ensures
        r == spec_clamp_unit(v as int),
        is_unit(r),
{
    if v > UNIT {
        UNIT
    } else {
        v
    }
}

/// Clamp a signed fixed-point value into `[0, UNIT]`.
pub fn clamp_unit_i64(v: i64) -> (r: u32)
    ensures
        r == spec_clamp_unit(v as int),
        is_unit(r),
{
    if v < 0 {
        0
    } else if v > UNIT as i64 {
        UNIT
    } else {
        v as u32
    }
}

/// `v` clamped into `[-limit, limit]`.
pub open spec fn spec_clamp_magnitude(v: int, limit: int) -> int {
    if v > limit { limit } else if v < -limit { -limit } else { v }
}

/// Clamp a pulse speed into `[-SPEED_LIMIT, SPEED_LIMIT]`.
pub fn clamp_speed(v: i64) -> (r: i64)
    ensures
        r == spec_clamp_magnitude(v as int, SPEED_LIMIT as int),
        -SPEED_LIMIT <= r <= SPEED_LIMIT,
{
    if v > SPEED_LIMIT {
        SPEED_LIMIT
    } else if v < -SPEED_LIMIT {
        -SPEED_LIMIT
    } else {
        v
    }
}

/// The product of two fractions, over the mathematical integers.
pub open spec fn spec_scale(x: int, f: int) -> int {
    (x * f) / (UNIT as int)
}

/// Multiply two fractions of `UNIT`; the result is again a fraction.
pub fn scale_unit(x: u32, f: u32) -> (r: u32)
    requires
        is_unit(x),
        is_unit(f),
    ensures
        r == spec_scale(x as int, f as int),
        r <= x,
        is_unit(r),
{
    proof {
        lemma_scale_bounds(x as int, f as int);
    }
    (x * f) / UNIT
}

/// Bounds of the fraction product: it never exceeds either factor's share.
pub proof fn lemma_scale_bounds(x: int, f: int)
    requires
        0 <= x <= UNIT,
        0 <= f <= UNIT,
    ensures
        x * f <= UNIT * UNIT,
        0 <= spec_scale(x, f) <= x,
{
    assert(x * f <= UNIT * UNIT) by (nonlinear_arith)
        requires 0 <= x <= UNIT, 0 <= f <= UNIT;
    assert(0 <= (x * f) / (UNIT as int) <= x) by (nonlinear_arith)
        requires 0 <= x, 0 <= f <= UNIT;
}

/// Scaling a positive fraction by a factor strictly below `UNIT` strictly
/// shrinks it: the peaks and strike intensities of the effects always fade.
pub proof fn lemma_scale_strictly_decreases(x: int, f: int)
    requires
        1 <= x <= UNIT,
        0 <= f < UNIT,
    ensures
        spec_scale(x, f) < x,
{
    assert((x * f) / (UNIT as int) < x) by (nonlinear_arith)
        requires 1 <= x, 0 <= f < UNIT;
}

} // verus!
