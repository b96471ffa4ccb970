//! Fixed-point sine and cosine.
//!
//! The kernel is Bhaskara's rational approximation of sine on `[0, pi]`,
//! extended to the whole line by reduction modulo `TWO_PI_FX`. `PI_FX` is a
//! multiple of four, which makes the values at every quarter turn exact:
//! `sin 0 == sin pi == 0`, `sin (pi/2) == 1`, and hence `cos 0 == 1`.

use vstd::prelude::*;

use crate::fixed::FX_ONE;
use crate::fixed::HALF_PI_FX;
use crate::fixed::PI_FX;
use crate::fixed::TWO_PI_FX;
use vstd::arithmetic::div_mod::lemma_div_is_ordered;
use vstd::arithmetic::div_mod::lemma_div_multiples_vanish;
use vstd::arithmetic::div_mod::lemma_fundamental_div_mod;
use vstd::arithmetic::div_mod::lemma_fundamental_div_mod_converse_mod;
use vstd::arithmetic::div_mod::lemma_mod_bound;
use vstd::arithmetic::div_mod::lemma_small_mod;

verus! {

/// Bhaskara's approximation on `[0, pi]`:
/// `sin x ~ 16 x (pi - x) / (5 pi^2 - 4 x (pi - x))`, in fixed point.
pub open spec fn sin_bhask_s(x: int) -> int {
    let u = x * (PI_FX as int - x);
    (16 * u * (FX_ONE as int)) / (5 * (PI_FX as int) * (PI_FX as int) - 4 * u)
}

/// Sine of a fixed-point angle in radians, for any angle.
pub open spec fn sin_fx_s(x: int) -> int {
    let r = x % (TWO_PI_FX as int);
    if r <= PI_FX as int {
        sin_bhask_s(r)
    } else {
        -sin_bhask_s(r - PI_FX as int)
    }
}

/// Cosine of a fixed-point angle in radians, for any angle.
pub open spec fn cos_fx_s(x: int) -> int {
    sin_fx_s(x + HALF_PI_FX as int)
}

/// On `[0, pi]` the kernel stays within `[0, FX_ONE]`.
pub proof fn lemma_sin_bhask_range(x: int)
    requires
        0 <= x <= PI_FX as int,
    ensures
        0 <= sin_bhask_s(x) <= FX_ONE as int,
{
    let pi = PI_FX as int;
    let one = FX_ONE as int;
    let u = x * (pi - x);
    assert(0 <= u && 4 * u <= pi * pi) by (nonlinear_arith)
        requires
            0 <= x <= pi,
            u == x * (pi - x),
    {
        assert((pi - 2 * x) * (pi - 2 * x) >= 0);
    }
    let n = 16 * u * one;
    let d = 5 * pi * pi - 4 * u;
    assert(d >= 4 * pi * pi);
    assert(n >= 0);
    assert(n <= one * d) by (nonlinear_arith)
        requires
            n == 16 * u * one,
            d == 5 * pi * pi - 4 * u,
            4 * u <= pi * pi,
            one == FX_ONE as int,
            pi == PI_FX as int,
    ;
    lemma_div_is_ordered(n, one * d, d);
    lemma_div_multiples_vanish(one, d);
    assert(n / d <= (d * one) / d) by {
        assert(one * d == d * one) by (nonlinear_arith);
    }
    assert(n / d >= 0) by {
        lemma_div_is_ordered(0, n, d);
    }
}

/// The kernel vanishes at both ends of `[0, pi]`.
pub proof fn lemma_sin_bhask_ends()
    ensures
        sin_bhask_s(0) == 0,
        sin_bhask_s(PI_FX as int) == 0,
{
}

/// The kernel is exactly one at the quarter turn.
pub proof fn lemma_sin_bhask_peak()
    ensures
        sin_bhask_s(HALF_PI_FX as int) == FX_ONE as int,
{
    let pi = PI_FX as int;
    let one = FX_ONE as int;
    let h = HALF_PI_FX as int;
    let u = h * (pi - h);
    assert(u == 10597467136) by (nonlinear_arith)
        requires
            u == h * (pi - h),
            h == 102944,
            pi == 205888,
    ;
    assert(5 * pi * pi - 4 * u == 16 * u) by (nonlinear_arith)
        requires
            u == 10597467136,
            pi == 205888,
    ;
    lemma_div_multiples_vanish(one, 16 * u);
    assert(16 * u * one == (16 * u) * one) by (nonlinear_arith);
}

/// Sine stays within `[-1, 1]` everywhere.
pub proof fn lemma_sin_fx_range(x: int)
    ensures
        -(FX_ONE as int) <= sin_fx_s(x) <= FX_ONE as int,
{
    let n = TWO_PI_FX as int;
    lemma_mod_bound(x, n);
    let r = x % n;
    if r <= PI_FX as int {
        lemma_sin_bhask_range(r);
    } else {
        lemma_sin_bhask_range(r - PI_FX as int);
    }
}

/// Cosine stays within `[-1, 1]` everywhere.
pub proof fn lemma_cos_fx_range(x: int)
    ensures
        -(FX_ONE as int) <= cos_fx_s(x) <= FX_ONE as int,
{
    lemma_sin_fx_range(x + HALF_PI_FX as int);
}

/// Exact values at the origin: `sin 0 == 0` and `cos 0 == 1`.
pub proof fn lemma_trig_at_zero()
    ensures
        sin_fx_s(0) == 0,
        cos_fx_s(0) == FX_ONE as int,
{
    let n = TWO_PI_FX as int;
    lemma_small_mod(0nat, n as nat);
    lemma_sin_bhask_ends();
    lemma_small_mod(HALF_PI_FX as nat, n as nat);
    lemma_sin_bhask_peak();
}

/// Sine and cosine only depend on the angle modulo one turn: reducing an
/// angle first changes nothing.
pub proof fn lemma_trig_mod(x: int)
    ensures
        sin_fx_s(x % (TWO_PI_FX as int)) == sin_fx_s(x),
        cos_fx_s(x % (TWO_PI_FX as int)) == cos_fx_s(x),
{
    let n = TWO_PI_FX as int;
    let h = HALF_PI_FX as int;
    let r = x % n;
    lemma_mod_bound(x, n);
    lemma_small_mod(r as nat, n as nat);
    vstd::arithmetic::div_mod::lemma_add_mod_noop(x, h, n);
    lemma_small_mod(h as nat, n as nat);
    vstd::arithmetic::div_mod::lemma_add_mod_noop(r, h, n);
    assert((r + h) % n == (x + h) % n);
}

/// Remainder of a scalar modulo one turn, always in `[0, TWO_PI_FX)`.
pub fn mod_two_pi_i64(x: i64) -> (r: i64)
    ensures
        r == (x as int) % (TWO_PI_FX as int),
        0 <= r < TWO_PI_FX,
{
    mod_two_pi_i128(x as i128)
}

/// Remainder of a wide scalar modulo one turn, always in `[0, TWO_PI_FX)`.
pub fn mod_two_pi_i128(x: i128) -> (r: i64)
    requires
        i128::MIN < x,
    ensures
        r == (x as int) % (TWO_PI_FX as int),
        0 <= r < TWO_PI_FX,
{
    let ghost n = TWO_PI_FX as int;
    if x >= 0 {
        let m: u128 = (x as u128) % (TWO_PI_FX as u128);
        m as i64
    } else {
        let m: u128 = ((-x) as u128) % (TWO_PI_FX as u128);
        let ghost q = (-x as int) / n;
        proof {
            lemma_fundamental_div_mod(-x as int, n);
            if m == 0 {
                assert(x as int == n * (-q) + 0) by (nonlinear_arith)
                    requires
                        -x as int == n * q + 0,
                ;
                lemma_fundamental_div_mod_converse_mod(x as int, n, -q, 0);
            } else {
                assert(x as int == n * (-q - 1) + (n - m)) by (nonlinear_arith)
                    requires
                        -x as int == n * q + m as int,
                ;
                lemma_fundamental_div_mod_converse_mod(x as int, n, -q - 1, n - m);
            }
        }
        if m == 0 {
            0
        } else {
            TWO_PI_FX - (m as i64)
        }
    }
}

/// The Bhaskara kernel, executable.
pub fn sin_bhask(x: i64) -> (r: i64)
    requires
        0 <= x <= PI_FX,
    ensures
        r == sin_bhask_s(x as int),
        0 <= r <= FX_ONE,
{
    proof {
        lemma_sin_bhask_range(x as int);
        assert(0 <= (x as int) * (PI_FX as int - x) && 4 * ((x as int) * (PI_FX as int - x)) <= (
        PI_FX as int) * (PI_FX as int)) by (nonlinear_arith)
            requires
                0 <= x as int <= PI_FX as int,
        ;
    }
    let u: i64 = x * (PI_FX - x);
    let n: i64 = 16 * u * FX_ONE;
    let d: i64 = 5 * PI_FX * PI_FX - 4 * u;
    let q: u64 = (n as u64) / (d as u64);
    proof {
        lemma_div_is_ordered(0, n as int, d as int);
    }
    q as i64
}

/// Sine of a fixed-point angle.
pub fn sin_fx(x: i64) -> (r: i64)
    ensures
        r == sin_fx_s(x as int),
        -FX_ONE <= r <= FX_ONE,
{
    let red = mod_two_pi_i64(x);
    if red <= PI_FX {
        sin_bhask(red)
    } else {
        let s = sin_bhask(red - PI_FX);
        -s
    }
}

/// Cosine of a fixed-point angle.
pub fn cos_fx(x: i64) -> (r: i64)
    requires
        x + HALF_PI_FX <= i64::MAX,
    ensures
        r == cos_fx_s(x as int),
        -FX_ONE <= r <= FX_ONE,
{
    sin_fx(x + HALF_PI_FX)
}

} // verus!
