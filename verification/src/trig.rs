//! Fixed-point sine and cosine.
//!
//! Angles are radians in micro-units. An angle is first reduced modulo a full
//! turn into `[-PI_FX, PI_FX]`, folded into the quarter-wave interval
//! `[-HALF_PI_FX, HALF_PI_FX]`, and evaluated there by a truncated Taylor
//! series over the saturating fixed-point operations. The specification *is*
//! that series: `sin_spec` and `cos_spec` define the library's trigonometry,
//! a deterministic approximation of the real functions good to a few
//! micro-units on the reduced interval.

use vstd::prelude::*;

use crate::fx::SCALE;
use crate::fx::fadd;
use crate::fx::fmul;
use crate::fx::fsub;
use crate::fx::fx_add;
use crate::fx::fx_div_int;
use crate::fx::fx_mul;
use crate::fx::fx_sub;
use crate::fx::tdiv;
use crate::fx::tmod;

verus! {

/// One half turn (pi radians) in micro-units, rounded to nearest.
pub const PI_FX: i64 = 3_141_593;

/// One full turn (two pi radians) in micro-units.
pub const TWO_PI_FX: i64 = 6_283_185;

/// One quarter turn (pi over two radians) in micro-units.
pub const HALF_PI_FX: i64 = 1_570_796;

/// Margin under which a cosine in a denominator counts as singular
/// (one tenth, reached near 84 degrees of tilt or pitch). Dividing only by
/// cosines at least this large keeps every thrust or Euler-rate quotient
/// within a factor of ten of its numerator.
pub const MIN_COS_DENOM: i64 = 100_000;

/// A cosine too close to zero to stand in a denominator.
pub open spec fn near_singular(c: int) -> bool {
    -(MIN_COS_DENOM as int) < c < MIN_COS_DENOM as int
}

/// The angle brought into `[-PI_FX, PI_FX]` by whole turns.
#[verifier::opaque]
pub open spec fn reduce_angle(a: int) -> int {
    let m = tmod(a, TWO_PI_FX as int);
    if m > PI_FX as int {
        m - TWO_PI_FX
    } else if m < -(PI_FX as int) {
        m + TWO_PI_FX
    } else {
        m
    }
}

/// Truncated Taylor series of sine on the quarter-wave interval.
#[verifier::opaque]
pub open spec fn sin_poly(x: int) -> int {
    let x2 = fmul(x, x);
    let x3 = fmul(x2, x);
    let x5 = fmul(x3, x2);
    let x7 = fmul(x5, x2);
    let x9 = fmul(x7, x2);
    fadd(fsub(fadd(fsub(x, tdiv(x3, 6)), tdiv(x5, 120)), tdiv(x7, 5040)), tdiv(x9, 362880))
}

/// Truncated Taylor series of cosine on the quarter-wave interval.
#[verifier::opaque]
pub open spec fn cos_poly(x: int) -> int {
    let x2 = fmul(x, x);
    let x4 = fmul(x2, x2);
    let x6 = fmul(x4, x2);
    let x8 = fmul(x6, x2);
    fadd(fsub(fadd(fsub(SCALE as int, tdiv(x2, 2)), tdiv(x4, 24)), tdiv(x6, 720)), tdiv(x8, 40320))
}

/// The sine of an angle in micro-radians: reduce, fold, evaluate the series.
#[verifier::opaque]
pub open spec fn sin_spec(a: int) -> int {
    let r = reduce_angle(a);
    if r > HALF_PI_FX as int {
        sin_poly(PI_FX - r)
    } else if r < -(HALF_PI_FX as int) {
        -sin_poly(PI_FX + r)
    } else {
        sin_poly(r)
    }
}

/// The cosine of an angle in micro-radians: reduce, fold, evaluate the series.
#[verifier::opaque]
pub open spec fn cos_spec(a: int) -> int {
    let r = reduce_angle(a);
    if r > HALF_PI_FX as int {
        -cos_poly(PI_FX - r)
    } else if r < -(HALF_PI_FX as int) {
        -cos_poly(PI_FX + r)
    } else {
        cos_poly(r)
    }
}

/// Reduce an angle into `[-PI_FX, PI_FX]` by whole turns.
fn reduce(a: i64) -> (r: i64)
    ensures
        r as int == reduce_angle(a as int),
        -(PI_FX as int) <= r as int <= PI_FX as int,
{
    proof {
        reveal(reduce_angle);
    }
    let m: i64 = a % TWO_PI_FX;
    if m > PI_FX {
        m - TWO_PI_FX
    } else if m < -PI_FX {
        m + TWO_PI_FX
    } else {
        m
    }
}

/// Evaluate the sine series on the folded interval.
fn sin_poly_eval(x: i64) -> (r: i64)
    ensures
        r as int == sin_poly(x as int),
{
    proof {
        reveal(sin_poly);
    }
    let x2 = fx_mul(x, x);
    let x3 = fx_mul(x2, x);
    let x5 = fx_mul(x3, x2);
    let x7 = fx_mul(x5, x2);
    let x9 = fx_mul(x7, x2);
    let t = fx_sub(x, fx_div_int(x3, 6));
    let t = fx_add(t, fx_div_int(x5, 120));
    let t = fx_sub(t, fx_div_int(x7, 5040));
    fx_add(t, fx_div_int(x9, 362880))
}

/// Evaluate the cosine series on the folded interval.
fn cos_poly_eval(x: i64) -> (r: i64)
    ensures
        r as int == cos_poly(x as int),
{
    proof {
        reveal(cos_poly);
    }
    let x2 = fx_mul(x, x);
    let x4 = fx_mul(x2, x2);
    let x6 = fx_mul(x4, x2);
    let x8 = fx_mul(x6, x2);
    let t = fx_sub(SCALE, fx_div_int(x2, 2));
    let t = fx_add(t, fx_div_int(x4, 24));
    let t = fx_sub(t, fx_div_int(x6, 720));
    fx_add(t, fx_div_int(x8, 40320))
}

/// Fixed-point sine of an angle in micro-radians.
pub fn fx_sin(a: i64) -> (r: i64)
    ensures
        r as int == sin_spec(a as int),
{
    proof {
        reveal(sin_spec);
        reveal(sin_poly);
    }
    let m = reduce(a);
    if m > HALF_PI_FX {
        sin_poly_eval(PI_FX - m)
    } else if m < -HALF_PI_FX {
        let v = sin_poly_eval(PI_FX + m);
        -v
    } else {
        sin_poly_eval(m)
    }
}

/// Fixed-point cosine of an angle in micro-radians.
pub fn fx_cos(a: i64) -> (r: i64)
    ensures
        r as int == cos_spec(a as int),
{
    proof {
        reveal(cos_spec);
        reveal(cos_poly);
    }
    let m = reduce(a);
    if m > HALF_PI_FX {
        let v = cos_poly_eval(PI_FX - m);
        -v
    } else if m < -HALF_PI_FX {
        let v = cos_poly_eval(PI_FX + m);
        -v
    } else {
        cos_poly_eval(m)
    }
}

} // verus!
