//! Fixed-point sine and cosine on angles measured in units of 1/10000
//! radian, using a rational approximation that stays within the unit
//! circle: the result of `sin_fp` and `cos_fp` always lies in
//! `[-SCALE, SCALE]`, which anchors every magnitude bound downstream.

use crate::fixed::{div_pos, SCALE};
use vstd::arithmetic::div_mod::{lemma_div_is_ordered, lemma_div_multiples_vanish};
use vstd::prelude::*;

verus! {

/// Half a turn, in angle units.
pub const PI_FP: i64 = 31416;

/// A full turn, in angle units.
pub const TWO_PI_FP: i64 = 62832;

/// A quarter turn, in angle units.
pub const HALF_PI_FP: i64 = 15708;

/// The sine of `x` for `x` in `[0, PI_FP]`, scaled by `SCALE`:
/// `16 u / (5 pi^2 - 4 u)` with `u = x (pi - x)`, a rational
/// approximation whose peak value is exactly 1 at the quarter turn.
pub open spec fn spec_half_sin(x: int) -> int {
    (16 * (x * (PI_FP as int - x)) * (SCALE as int)) / (5 * (PI_FP as int) * (PI_FP as int) - 4
        * (x * (PI_FP as int - x)))
}

/// The sine of any angle in `[0, TWO_PI_FP)`, scaled by `SCALE`.
pub open spec fn spec_sin_fp(x: int) -> int {
    if x < PI_FP as int {
        spec_half_sin(x)
    } else {
        -spec_half_sin(x - PI_FP as int)
    }
}

/// The cosine, as the sine shifted a quarter turn.
pub open spec fn spec_cos_fp(x: int) -> int {
    if x + (HALF_PI_FP as int) < (TWO_PI_FP as int) {
        spec_sin_fp(x + HALF_PI_FP as int)
    } else {
        spec_sin_fp(x + HALF_PI_FP as int - TWO_PI_FP as int)
    }
}

/// The parabola `x (pi - x)` stays within `[0, (pi/2)^2]` on `[0, pi]`.
proof fn lemma_parabola_bound(x: int)
    requires
        0 <= x <= PI_FP as int,
    ensures
        0 <= x * (PI_FP as int - x),
        4 * (x * (PI_FP as int - x)) <= (PI_FP as int) * (PI_FP as int),
{
    assert(0 <= x * (31416 - x) && 4 * (x * (31416 - x)) <= 31416 * 31416) by (nonlinear_arith)
        requires
            0 <= x <= 31416,
    ;
}

fn half_sin(x: i64) -> (r: i64)
    requires
        0 <= x <= PI_FP,
    ensures
        r == spec_half_sin(x as int),
        0 <= r <= SCALE,
{
    proof {
        lemma_parabola_bound(x as int);
    }
    let u: i64 = x * (PI_FP - x);
    let num: i64 = 16 * u * SCALE;
    let den: i64 = 5 * PI_FP * PI_FP - 4 * u;
    let r = div_pos(num, den);
    proof {
        lemma_div_is_ordered(num as int, (SCALE as int) * (den as int), den as int);
        lemma_div_multiples_vanish(SCALE as int, den as int);
    }
    r
}

/// The sine of an angle in `[0, TWO_PI_FP)`, scaled by `SCALE`.
pub fn sin_fp(x: i64) -> (r: i64)
    requires
        0 <= x < TWO_PI_FP,
    ensures
        r == spec_sin_fp(x as int),
        -SCALE <= r <= SCALE,
{
    if x < PI_FP {
        half_sin(x)
    } else {
        let s = half_sin(x - PI_FP);
        -s
    }
}

/// The cosine of an angle in `[0, TWO_PI_FP)`, scaled by `SCALE`.
pub fn cos_fp(x: i64) -> (r: i64)
    requires
        0 <= x < TWO_PI_FP,
    ensures
        r == spec_cos_fp(x as int),
        -SCALE <= r <= SCALE,
{
    let y: i64 = x + HALF_PI_FP;
    if y < TWO_PI_FP {
        sin_fp(y)
    } else {
        sin_fp(y - TWO_PI_FP)
    }
}

} // verus!
