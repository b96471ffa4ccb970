//! Fixed-point scalar arithmetic.
//!
//! A scalar is an `i64` holding the real value scaled by `FX_ONE` (65536).
//! Multiplication and division round toward zero, as the widened integer
//! operations do. The spec-level model is `div_t`, truncating division over
//! unbounded integers.

use vstd::prelude::*;

verus! {

/// The fixed-point representation of 1.0.
pub const FX_ONE: i64 = 65536;

/// The fixed-point representation of 0.5.
pub const FX_HALF: i64 = 32768;

/// Pi, rounded to the nearest multiple of 4/FX_ONE so that quarter and half
/// turns are exact multiples of `HALF_PI_FX`.
pub const PI_FX: i64 = 205888;

/// Pi/2 in fixed point; exactly half of `PI_FX`.
pub const HALF_PI_FX: i64 = 102944;

/// 2*Pi in fixed point; exactly twice `PI_FX`.
pub const TWO_PI_FX: i64 = 411776;

/// Largest operand magnitude `fx_mul` accepts (2^38).
pub const FX_OP_MAX: i64 = 0x40_0000_0000;

/// Largest numerator magnitude `fx_div` accepts (2^46).
pub const FX_DIV_MAX: i64 = 0x4000_0000_0000;

/// Truncating division (round toward zero), the rounding used by all
/// executable fixed-point operations. Requires `b > 0` to be meaningful.
pub open spec fn div_t(a: int, b: int) -> int {
    if a >= 0 {
        a / b
    } else {
        -((-a) / b)
    }
}

/// The mathematical model of fixed-point multiplication.
pub open spec fn fx_mul_s(a: int, b: int) -> int {
    div_t(a * b, FX_ONE as int)
}

/// The mathematical model of fixed-point division.
pub open spec fn fx_div_s(a: int, b: int) -> int {
    div_t(a * (FX_ONE as int), b)
}

/// Magnitude of an integer.
pub open spec fn fx_abs(a: int) -> int {
    if a >= 0 {
        a
    } else {
        -a
    }
}

/// `v` forced into `[lo, hi]`.
pub open spec fn clamp_s(v: int, lo: int, hi: int) -> int {
    if v < lo {
        lo
    } else if v > hi {
        hi
    } else {
        v
    }
}

/// Forces `v` into `[lo, hi]`.
pub fn clamp_i64(v: i64, lo: i64, hi: i64) -> (r: i64)
    requires
        lo <= hi,
    ensures
        r == clamp_s(v as int, lo as int, hi as int),
{
    if v < lo {
        lo
    } else if v > hi {
        hi
    } else {
        v
    }
}

/// Zero divided by anything positive is zero.
pub proof fn lemma_div_t_zero(b: int)
    requires
        1 <= b,
    ensures
        div_t(0, b) == 0,
{
    vstd::arithmetic::div_mod::lemma_div_of0(b);
}

/// Truncating division of `a` by a positive divisor `b`.
pub fn div_trunc(a: i64, b: i64) -> (q: i64)
    requires
        1 <= b,
        i64::MIN < a,
    ensures
        q == div_t(a as int, b as int),
{
    if a >= 0 {
        let q: u64 = (a as u64) / (b as u64);
        q as i64
    } else {
        let m: u64 = (-a) as u64;
        let q: u64 = m / (b as u64);
        -(q as i64)
    }
}

/// Fixed-point product of two scalars, rounded toward zero.
pub fn fx_mul(a: i64, b: i64) -> (r: i64)
    requires
        -FX_OP_MAX <= a <= FX_OP_MAX,
        -FX_OP_MAX <= b <= FX_OP_MAX,
    ensures
        r == fx_mul_s(a as int, b as int),
{
    proof {
        lemma_abs_product_bound(a as int, b as int, FX_OP_MAX as int, FX_OP_MAX as int);
    }
    let p: i128 = (a as i128) * (b as i128);
    if p >= 0 {
        let q: u128 = (p as u128) / (FX_ONE as u128);
        q as i64
    } else {
        let q: u128 = ((-p) as u128) / (FX_ONE as u128);
        -(q as i64)
    }
}

/// Fixed-point quotient `a / b` for a positive divisor, rounded toward zero.
pub fn fx_div(a: i64, b: i64) -> (r: i64)
    requires
        1 <= b,
        -FX_DIV_MAX <= a <= FX_DIV_MAX,
    ensures
        r == fx_div_s(a as int, b as int),
{
    let n: i64 = a * FX_ONE;
    div_trunc(n, b)
}

/// Half of a scalar, rounded toward zero.
pub fn fx_half(a: i64) -> (r: i64)
    requires
        i64::MIN < a,
    ensures
        r == div_t(a as int, 2),
{
    div_trunc(a, 2)
}

/// |a * b| <= ca * cb when |a| <= ca and |b| <= cb.
pub proof fn lemma_abs_product_bound(a: int, b: int, ca: int, cb: int)
    by (nonlinear_arith)
    requires
        -ca <= a <= ca,
        -cb <= b <= cb,
    ensures
        -(ca * cb) <= a * b <= ca * cb,
{
}

/// Truncating division by a positive divisor never grows the magnitude, and
/// is monotone in the magnitude of the numerator.
pub proof fn lemma_div_t_bound(a: int, b: int, c: int)
    by (nonlinear_arith)
    requires
        1 <= b,
        -c <= a <= c,
    ensures
        -c <= div_t(a, b) <= c,
        -div_t(c, b) <= div_t(a, b) <= div_t(c, b),
{
}

/// Multiplying by one is exact.
pub proof fn lemma_fx_mul_one(x: int)
    by (nonlinear_arith)
    ensures
        fx_mul_s(FX_ONE as int, x) == x,
        fx_mul_s(x, FX_ONE as int) == x,
{
}

/// Multiplying by zero gives zero.
pub proof fn lemma_fx_mul_zero(x: int)
    by (nonlinear_arith)
    ensures
        fx_mul_s(0, x) == 0,
        fx_mul_s(x, 0) == 0,
{
}

/// Truncating fixed-point multiplication is odd in its first argument.
pub proof fn lemma_fx_mul_neg(a: int, b: int)
    ensures
        fx_mul_s(-a, b) == -fx_mul_s(a, b),
{
    assert((-a) * b == -(a * b)) by (nonlinear_arith);
}

/// Bound propagation through a fixed-point product.
pub proof fn lemma_fx_mul_bound(a: int, b: int, ca: int, cb: int)
    requires
        -ca <= a <= ca,
        -cb <= b <= cb,
    ensures
        -div_t(ca * cb, FX_ONE as int) <= fx_mul_s(a, b) <= div_t(ca * cb, FX_ONE as int),
{
    lemma_abs_product_bound(a, b, ca, cb);
    lemma_div_t_bound(a * b, FX_ONE as int, ca * cb);
    assert(-div_t(ca * cb, FX_ONE as int) <= div_t(a * b, FX_ONE as int) <= div_t(
        ca * cb,
        FX_ONE as int,
    ));
}

} // verus!
