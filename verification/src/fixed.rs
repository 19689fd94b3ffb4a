//! Signed fixed-point arithmetic on `i64`, with `SCALE` steps per unit.
//!
//! Every operation is exact integer arithmetic: products are divided by
//! `SCALE` with truncation toward zero, the same rounding that Rust's `/`
//! performs on signed integers, so contracts can state results exactly.

use vstd::prelude::*;
use vstd::arithmetic::div_mod::{
    lemma_div_is_ordered, lemma_div_multiples_vanish, lemma_div_nonincreasing,
    lemma_div_pos_is_pos,
};

verus! {

/// Number of fixed-point steps per unit: a stored value `v` stands for the
/// real number `v / SCALE`.
pub const SCALE: i64 = 1_000_000;

/// Truncating division (round toward zero), the behaviour of `/` on signed
/// integers in executable Rust. Meaningful for `b > 0`.
pub open spec fn div_trunc(a: int, b: int) -> int
    recommends
        b > 0,
{
    if a >= 0 {
        a / b
    } else {
        -((-a) / b)
    }
}

/// The product of two fixed-point values, rescaled: the fixed-point value of
/// the real product, rounded toward zero.
pub open spec fn fx_mul_spec(a: int, b: int) -> int {
    div_trunc(a * b, SCALE as int)
}

/// Truncating division never grows the magnitude of a non-negative dividend,
/// and is antitone in the divisor's growth of the dividend: `|a| <= m`
/// implies `|div_trunc(a, b)| <= div_trunc(m, b) <= m`.
pub proof fn lemma_div_trunc_bound(a: int, m: int, b: int)
    requires
        b > 0,
        -m <= a <= m,
        0 <= m,
    ensures
        -div_trunc(m, b) <= div_trunc(a, b) <= div_trunc(m, b),
        div_trunc(m, b) <= m,
{
    lemma_div_nonincreasing(m, b);
    if a >= 0 {
        lemma_div_is_ordered(a, m, b);
        lemma_div_pos_is_pos(a, b);
    } else {
        lemma_div_is_ordered(-a, m, b);
        lemma_div_pos_is_pos(-a, b);
    }
}

/// A multiple of the divisor divides exactly.
pub proof fn lemma_div_trunc_exact(x: int, b: int)
    requires
        b > 0,
    ensures
        div_trunc(b * x, b) == x,
{
    if b * x >= 0 {
        lemma_div_multiples_vanish(x, b);
    } else {
        assert(-(b * x) == b * -x) by (nonlinear_arith);
        lemma_div_multiples_vanish(-x, b);
    }
}

/// Multiplying by a whole unit changes nothing: `1.0 * b == b`.
pub proof fn lemma_fx_mul_one(b: int)
    ensures
        fx_mul_spec(SCALE as int, b) == b,
        fx_mul_spec(b, SCALE as int) == b,
{
    lemma_div_trunc_exact(b, SCALE as int);
    assert(b * SCALE == SCALE * b) by (nonlinear_arith);
}

/// Truncating division is odd in the dividend.
pub proof fn lemma_div_trunc_neg(a: int, b: int)
    requires
        b > 0,
    ensures
        div_trunc(-a, b) == -div_trunc(a, b),
{
    if a == 0 {
        assert(div_trunc(0, b) == 0) by {
            vstd::arithmetic::div_mod::lemma_div_of0(b);
        }
    }
}

/// Negating either factor negates a fixed-point product.
pub proof fn lemma_fx_mul_neg(a: int, b: int)
    ensures
        fx_mul_spec(-a, b) == -fx_mul_spec(a, b),
        fx_mul_spec(a, -b) == -fx_mul_spec(a, b),
{
    assert((-a) * b == -(a * b)) by (nonlinear_arith);
    assert(a * (-b) == -(a * b)) by (nonlinear_arith);
    lemma_div_trunc_neg(a * b, SCALE as int);
}

/// Multiplying by zero gives zero.
pub proof fn lemma_fx_mul_zero(b: int)
    ensures
        fx_mul_spec(0, b) == 0,
        fx_mul_spec(b, 0) == 0,
{
    assert(0int * b == 0) by (nonlinear_arith);
    assert(b * 0int == 0) by (nonlinear_arith);
    assert(div_trunc(0, SCALE as int) == 0);
}

/// A product of magnitudes bounded by `SCALE` and `m` rescales to a value
/// bounded by `m`: multiplying by at most one unit cannot grow a value.
pub proof fn lemma_fx_mul_bound(a: int, b: int, m: int)
    requires
        -SCALE <= a <= SCALE,
        -m <= b <= m,
        0 <= m,
    ensures
        -m <= fx_mul_spec(a, b) <= m,
{
    assert(-(SCALE * m) <= a * b <= SCALE * m) by (nonlinear_arith)
        requires
            -SCALE <= a <= SCALE,
            -m <= b <= m,
            0 <= m,
    ;
    lemma_div_trunc_bound(a * b, SCALE * m, SCALE as int);
    lemma_div_trunc_exact(m, SCALE as int);
    assert(SCALE * m == (SCALE as int) * m);
}

/// Fixed-point product: `r` is the fixed-point value of the real product of
/// `a` and `b`, rounded toward zero.
pub fn fx_mul(a: i64, b: i64) -> (r: i64)
    requires
        -i64::MAX <= a * b <= i64::MAX,
    ensures
        r == fx_mul_spec(a as int, b as int),
{
    let p: i64 = a * b;
    proof {
        lemma_div_trunc_bound(p as int, i64::MAX as int, SCALE as int);
    }
    p / SCALE
}

/// Truncating division of a fixed-point value by a positive divisor.
pub fn fx_div(a: i64, b: i64) -> (r: i64)
    requires
        b > 0,
    ensures
        r == div_trunc(a as int, b as int),
{
    proof {
        if a >= 0 {
            lemma_div_nonincreasing(a as int, b as int);
            lemma_div_pos_is_pos(a as int, b as int);
        } else {
            lemma_div_nonincreasing(-(a as int), b as int);
            lemma_div_pos_is_pos(-(a as int), b as int);
        }
    }
    a / b
}

/// Clamp a value into `[lo, hi]`.
pub open spec fn clamp_spec(v: int, lo: int, hi: int) -> int {
    if v < lo {
        lo
    } else if v > hi {
        hi
    } else {
        v
    }
}

/// Clamp a value into `[lo, hi]`.
pub fn clamp(v: i64, lo: i64, hi: i64) -> (r: i64)
    requires
        lo <= hi,
    ensures
        r == clamp_spec(v as int, lo as int, hi as int),
        lo <= r <= hi,
{
    if v < lo {
        lo
    } else if v > hi {
        hi
    } else {
        v
    }
}

} // verus!
