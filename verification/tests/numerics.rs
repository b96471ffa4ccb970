//! Fixed-point arithmetic, trigonometry and random-source behavior.

use volka::fixed::clamp_i64;
use volka::fixed::div_trunc;
use volka::fixed::fx_div;
use volka::fixed::fx_half;
use volka::fixed::fx_mul;
use volka::fixed::FX_ONE;
use volka::fixed::HALF_PI_FX;
use volka::fixed::PI_FX;
use volka::fixed::TWO_PI_FX;
use volka::rng::SplitMix64;
use volka::trig::cos_fx;
use volka::trig::mod_two_pi_i64;
use volka::trig::sin_fx;

#[test]
fn fx_mul_is_exact_on_whole_numbers() {
    assert_eq!(fx_mul(2 * FX_ONE, 3 * FX_ONE), 6 * FX_ONE);
    assert_eq!(fx_mul(-2 * FX_ONE, 3 * FX_ONE), -6 * FX_ONE);
    assert_eq!(fx_mul(FX_ONE / 2, FX_ONE / 2), FX_ONE / 4);
    assert_eq!(fx_mul(0, 12345), 0);
    assert_eq!(fx_mul(FX_ONE, 987654), 987654);
}

#[test]
fn fx_mul_truncates_toward_zero() {
    // 1.5 * (1 + 1/65536) = 1.5 + 1.5/65536; the half ulp is dropped.
    let a = 3 * FX_ONE / 2;
    let b = FX_ONE + 1;
    assert_eq!(fx_mul(a, b), a + 1);
    assert_eq!(fx_mul(-a, b), -(a + 1));
}

#[test]
fn fx_div_is_exact_on_whole_ratios() {
    assert_eq!(fx_div(2 * FX_ONE, 4 * FX_ONE), FX_ONE / 2);
    assert_eq!(fx_div(-2 * FX_ONE, 4 * FX_ONE), -(FX_ONE / 2));
    assert_eq!(fx_div(6 * FX_ONE, 3 * FX_ONE), 2 * FX_ONE);
}

#[test]
fn div_trunc_rounds_toward_zero() {
    assert_eq!(div_trunc(7, 2), 3);
    assert_eq!(div_trunc(-7, 2), -3);
    assert_eq!(div_trunc(0, 5), 0);
    assert_eq!(fx_half(-5), -2);
    assert_eq!(fx_half(5), 2);
}

#[test]
fn clamp_holds_both_ends() {
    assert_eq!(clamp_i64(5, 0, 10), 5);
    assert_eq!(clamp_i64(-5, 0, 10), 0);
    assert_eq!(clamp_i64(15, 0, 10), 10);
}

#[test]
fn sine_is_exact_at_quarter_turns() {
    assert_eq!(sin_fx(0), 0);
    assert_eq!(sin_fx(HALF_PI_FX), FX_ONE);
    assert_eq!(sin_fx(PI_FX), 0);
    assert_eq!(sin_fx(PI_FX + HALF_PI_FX), -FX_ONE);
    assert_eq!(sin_fx(TWO_PI_FX), 0);
}

#[test]
fn cosine_is_exact_at_quarter_turns() {
    assert_eq!(cos_fx(0), FX_ONE);
    assert_eq!(cos_fx(HALF_PI_FX), 0);
    assert_eq!(cos_fx(PI_FX), -FX_ONE);
    assert_eq!(cos_fx(TWO_PI_FX), FX_ONE);
}

#[test]
fn sine_matches_the_rational_kernel() {
    // On [0, pi] the value is 16*u*one / (5*pi^2 - 4*u) with u = x*(pi - x).
    let xs = [1, 1000, 51472, 102944, 150000, 205887];
    for &x in xs.iter() {
        let u = (x as i128) * ((PI_FX - x) as i128);
        let n = 16 * u * (FX_ONE as i128);
        let d = 5 * (PI_FX as i128) * (PI_FX as i128) - 4 * u;
        let expected = (n / d) as i64;
        assert_eq!(sin_fx(x), expected);
    }
}

#[test]
fn sine_is_periodic_and_bounded() {
    let xs = [0, 1, 12345, 102944, 205888, 300000, 411775, -1, -411776, -99999];
    for &x in xs.iter() {
        let s = sin_fx(x);
        assert!(-FX_ONE <= s && s <= FX_ONE);
        assert_eq!(sin_fx(x + TWO_PI_FX), s);
        assert_eq!(sin_fx(x - TWO_PI_FX), s);
        let c = cos_fx(x);
        assert!(-FX_ONE <= c && c <= FX_ONE);
        assert_eq!(cos_fx(x + TWO_PI_FX), c);
    }
}

#[test]
fn angle_reduction_is_euclidean() {
    assert_eq!(mod_two_pi_i64(0), 0);
    assert_eq!(mod_two_pi_i64(TWO_PI_FX), 0);
    assert_eq!(mod_two_pi_i64(TWO_PI_FX + 7), 7);
    assert_eq!(mod_two_pi_i64(-1), TWO_PI_FX - 1);
    assert_eq!(mod_two_pi_i64(-TWO_PI_FX), 0);
}

#[test]
fn splitmix_matches_the_reference_vector() {
    // The first output of SplitMix64 seeded with zero.
    let mut rng = SplitMix64::new(0);
    assert_eq!(rng.next_u64(), 0xE220A8397B1DCDAF);
}

#[test]
fn splitmix_replays_the_same_draws_for_a_seed() {
    let mut a = SplitMix64::new(20260101);
    let mut b = SplitMix64::new(20260101);
    for _ in 0..100 {
        assert_eq!(a.next_u64(), b.next_u64());
    }
    assert_eq!(a.state, b.state);
}

#[test]
fn draws_stay_below_their_bound() {
    let mut rng = SplitMix64::new(7);
    for m in 1..200i64 {
        let v = rng.next_below(m);
        assert!(0 <= v && v < m);
    }
}
