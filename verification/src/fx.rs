//! Saturating fixed-point scalars.
//!
//! A physical quantity (metres, radians, newtons, seconds, ...) is held as an
//! `i64` count of micro-units: the real value times [`SCALE`]. Addition,
//! subtraction, multiplication and division round toward zero and saturate at
//! [`FX_MAX`] in magnitude, so every operation is total and no overflow can
//! occur anywhere in the control laws built on top of them.

use vstd::prelude::*;

verus! {

/// Fixed-point units per real-world unit: values are micro-units in an `i64`.
pub const SCALE: i64 = 1_000_000;

/// Largest magnitude a fixed-point value may take; arithmetic saturates here.
pub const FX_MAX: i64 = 1_000_000_000_000_000_000;

/// Truncating division (rounds toward zero), as machine division does.
/// Unspecified for `b == 0`, like `/` itself.
pub open spec fn tdiv(a: int, b: int) -> int {
    if a >= 0 {
        a / b
    } else {
        -((-a) / b)
    }
}

/// Truncating remainder (takes the dividend's sign), as machine `%` does.
pub open spec fn tmod(a: int, b: int) -> int {
    if a >= 0 {
        a % b
    } else {
        -((-a) % b)
    }
}

/// `x` forced into `[lo, hi]`.
pub open spec fn clamp_spec(x: int, lo: int, hi: int) -> int {
    if x < lo {
        lo
    } else if x > hi {
        hi
    } else {
        x
    }
}

/// `x` saturated into the representable fixed-point range.
pub open spec fn sat(x: int) -> int {
    clamp_spec(x, -(FX_MAX as int), FX_MAX as int)
}

/// Saturating fixed-point sum.
pub open spec fn fadd(a: int, b: int) -> int {
    sat(a + b)
}

/// Saturating fixed-point difference.
pub open spec fn fsub(a: int, b: int) -> int {
    sat(a - b)
}

/// Saturating fixed-point product: `a * b` rescaled by `SCALE`.
pub open spec fn fmul(a: int, b: int) -> int {
    sat(tdiv(a * b, SCALE as int))
}

/// Saturating fixed-point quotient: `a / b` rescaled by `SCALE`.
/// Unspecified for `b == 0`, which every caller must rule out.
pub open spec fn fdiv(a: int, b: int) -> int {
    sat(tdiv(a * (SCALE as int), b))
}

/// A product of two `i64` values stays well inside the `i128` range.
proof fn lemma_i64_product_fits(a: int, b: int)
    requires
        i64::MIN <= a <= i64::MAX,
        i64::MIN <= b <= i64::MAX,
    ensures
        -0x40000000000000000000000000000000 <= a * b <= 0x40000000000000000000000000000000,
{
    assert(-0x40000000000000000000000000000000 <= a * b <= 0x40000000000000000000000000000000)
        by (nonlinear_arith)
        requires
            -0x8000000000000000 <= a <= 0x7fffffffffffffff,
            -0x8000000000000000 <= b <= 0x7fffffffffffffff,
    ;
}

/// Dividing by a negated positive divisor negates the Euclidean quotient.
proof fn lemma_div_by_neg(n: int, d: int)
    requires
        d > 0,
    ensures
        n / (-d) == -(n / d),
{
    assert(n / (-d) == -(n / d)) by (nonlinear_arith)
        requires
            d > 0,
    ;
}

/// A Euclidean quotient of a nonnegative dividend is bounded by the dividend.
proof fn lemma_ediv_bound(n: int, d: int)
    requires
        n >= 0,
        d != 0,
    ensures
        -n <= n / d <= n,
{
    if d > 0 {
        vstd::arithmetic::div_mod::lemma_div_pos_is_pos(n, d);
        vstd::arithmetic::div_mod::lemma_div_nonincreasing(n, d);
    } else {
        lemma_div_by_neg(n, -d);
        vstd::arithmetic::div_mod::lemma_div_pos_is_pos(n, -d);
        vstd::arithmetic::div_mod::lemma_div_nonincreasing(n, -d);
    }
}

/// Saturate an intermediate `i128` result back into the fixed-point range.
fn sat_i128(x: i128) -> (r: i64)
    ensures
        r as int == sat(x as int),
{
    if x > FX_MAX as i128 {
        FX_MAX
    } else if x < -(FX_MAX as i128) {
        -FX_MAX
    } else {
        x as i64
    }
}

/// Saturating fixed-point addition.
pub fn fx_add(a: i64, b: i64) -> (r: i64)
    ensures
        r as int == fadd(a as int, b as int),
{
    let s: i128 = a as i128 + b as i128;
    sat_i128(s)
}

/// Saturating fixed-point subtraction.
pub fn fx_sub(a: i64, b: i64) -> (r: i64)
    ensures
        r as int == fsub(a as int, b as int),
{
    let s: i128 = a as i128 - b as i128;
    sat_i128(s)
}

/// Saturating fixed-point multiplication.
pub fn fx_mul(a: i64, b: i64) -> (r: i64)
    ensures
        r as int == fmul(a as int, b as int),
{
    proof {
        lemma_i64_product_fits(a as int, b as int);
    }
    let p: i128 = (a as i128) * (b as i128);
    let q: i128 = p / (SCALE as i128);
    sat_i128(q)
}

/// Saturating fixed-point division.
pub fn fx_div(a: i64, b: i64) -> (r: i64)
    requires
        b != 0,
    ensures
        r as int == fdiv(a as int, b as int),
{
    proof {
        lemma_i64_product_fits(a as int, SCALE as int);
    }
    let p: i128 = (a as i128) * (SCALE as i128);
    proof {
        if p >= 0 {
            lemma_ediv_bound(p as int, b as int);
        } else {
            lemma_ediv_bound(-(p as int), b as int);
        }
    }
    let q: i128 = p / (b as i128);
    sat_i128(q)
}

/// Truncating division of a fixed-point value by a plain (unscaled) positive
/// count, used to divide by the constant factorials of the sine and cosine
/// series.
pub fn fx_div_int(a: i64, d: i64) -> (r: i64)
    requires
        d > 0,
    ensures
        r as int == tdiv(a as int, d as int),
{
    proof {
        if a >= 0 {
            lemma_ediv_bound(a as int, d as int);
        } else {
            lemma_ediv_bound(-(a as int), d as int);
        }
    }
    a / d
}

/// `x` forced into `[lo, hi]`.
pub fn fx_clamp(x: i64, lo: i64, hi: i64) -> (r: i64)
    requires
        lo <= hi,
    ensures
        r as int == clamp_spec(x as int, lo as int, hi as int),
{
    if x < lo {
        lo
    } else if x > hi {
        hi
    } else {
        x
    }
}

} // verus!
