//! The numeric representation: signed fixed-point scalars and the few
//! arithmetic operations the simulation needs.
//!
//! A world unit (one pixel of the window) is `SCALE` stored units, and a
//! frame's elapsed time is a whole number of ticks of `1 / TICKS_PER_SECOND`
//! seconds. Every stored coordinate and velocity is kept inside
//! `[-COORD_LIMIT, COORD_LIMIT]`: operations that could leave that interval
//! saturate at its ends, so the update functions are total and never
//! overflow.

use vstd::prelude::*;

verus! {

/// Stored units per world unit.
pub const SCALE: i64 = 10_000;

/// Ticks per second: time deltas are counted in ticks of 1/60 s.
pub const TICKS_PER_SECOND: i64 = 60;

/// Magnitude at which stored coordinates and velocities saturate
/// (10^8 world units, far beyond any window).
pub const COORD_LIMIT: i64 = 1_000_000_000_000;

/// A stored scalar that the simulation may hold.
pub open spec fn in_coord_range(x: int) -> bool {
    -COORD_LIMIT <= x <= COORD_LIMIT
}

/// Quotient rounded toward zero, the natural rounding for the signed
/// stored scalars (spec `/` on `int` is Euclidean and rounds down).
pub open spec fn trunc_div(a: int, b: int) -> int
    recommends
        b > 0,
{
    if a >= 0 {
        a / b
    } else {
        -((-a) / b)
    }
}

/// `x` pulled back into `[-COORD_LIMIT, COORD_LIMIT]`.
pub open spec fn saturated(x: int) -> int {
    if x > COORD_LIMIT as int {
        COORD_LIMIT as int
    } else if x < -(COORD_LIMIT as int) {
        -(COORD_LIMIT as int)
    } else {
        x
    }
}

/// Executable quotient rounded toward zero.
pub(crate) fn div_toward_zero(a: i128, b: i128) -> (q: i128)
    requires
        b > 0,
        a > i128::MIN,
    ensures
        q == trunc_div(a as int, b as int),
{
    if a >= 0 {
        a / b
    } else {
        -((-a) / b)
    }
}

/// Executable saturation into `[-COORD_LIMIT, COORD_LIMIT]`.
pub(crate) fn saturate(x: i128) -> (r: i64)
    ensures
        r as int == saturated(x as int),
{
    if x > COORD_LIMIT as i128 {
        COORD_LIMIT
    } else if x < -(COORD_LIMIT as i128) {
        -COORD_LIMIT
    } else {
        x as i64
    }
}

/// Rounding toward zero never grows the magnitude: if `|a| <= cap` then
/// `|trunc_div(a, b)| <= cap / b <= cap` for `b >= 1`.
pub proof fn lemma_trunc_div_bounded(a: int, b: int, cap: int)
    requires
        b >= 1,
        0 <= cap,
        -cap <= a <= cap,
    ensures
        -(cap / b) <= trunc_div(a, b) <= cap / b,
        -cap <= trunc_div(a, b) <= cap,
{
    vstd::arithmetic::div_mod::lemma_div_pos_is_pos(cap, b);
    vstd::arithmetic::div_mod::lemma_div_nonincreasing(cap, b);
    if a >= 0 {
        vstd::arithmetic::div_mod::lemma_div_pos_is_pos(a, b);
        vstd::arithmetic::div_mod::lemma_div_is_ordered(a, cap, b);
    } else {
        vstd::arithmetic::div_mod::lemma_div_pos_is_pos(-a, b);
        vstd::arithmetic::div_mod::lemma_div_is_ordered(-a, cap, b);
    }
}

} // verus!
