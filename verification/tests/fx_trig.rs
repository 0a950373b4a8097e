//! Exact-value tests of the fixed-point scalar operations and the
//! fixed-point trigonometry.

use quadsim::fx::FX_MAX;
use quadsim::fx::SCALE;
use quadsim::fx::fx_add;
use quadsim::fx::fx_clamp;
use quadsim::fx::fx_div;
use quadsim::fx::fx_div_int;
use quadsim::fx::fx_mul;
use quadsim::fx::fx_sub;
use quadsim::trig::HALF_PI_FX;
use quadsim::trig::MIN_COS_DENOM;
use quadsim::trig::PI_FX;
use quadsim::trig::TWO_PI_FX;
use quadsim::trig::fx_cos;
use quadsim::trig::fx_sin;

#[test]
fn fx_add_and_sub_are_exact_in_range() {
    assert_eq!(fx_add(2_500_000, 4_000_000), 6_500_000);
    assert_eq!(fx_sub(2_500_000, 4_000_000), -1_500_000);
    assert_eq!(fx_add(-7, 7), 0);
}

#[test]
fn fx_add_saturates_at_the_range_bound() {
    assert_eq!(fx_add(FX_MAX, FX_MAX), FX_MAX);
    assert_eq!(fx_add(FX_MAX, 1), FX_MAX);
    assert_eq!(fx_sub(-FX_MAX, 1), -FX_MAX);
    assert_eq!(fx_add(-FX_MAX, -FX_MAX), -FX_MAX);
}

#[test]
fn fx_mul_rescales_and_truncates_toward_zero() {
    // 2.5 * 4.0 == 10.0
    assert_eq!(fx_mul(2_500_000, 4_000_000), 10_000_000);
    assert_eq!(fx_mul(-2_500_000, 4_000_000), -10_000_000);
    assert_eq!(fx_mul(-2_500_000, -4_000_000), 10_000_000);
    // one micro-unit squared truncates to zero, from either side
    assert_eq!(fx_mul(1, 1), 0);
    assert_eq!(fx_mul(-1, 1), 0);
    // saturation of a huge product
    assert_eq!(fx_mul(FX_MAX, 2_000_000), FX_MAX);
    assert_eq!(fx_mul(FX_MAX, -2_000_000), -FX_MAX);
}

#[test]
fn fx_div_rescales_and_truncates_toward_zero() {
    // 10.0 / 4.0 == 2.5
    assert_eq!(fx_div(10_000_000, 4_000_000), 2_500_000);
    assert_eq!(fx_div(10_000_000, -4_000_000), -2_500_000);
    assert_eq!(fx_div(-10_000_000, -4_000_000), 2_500_000);
    // 10.0 / 3.0 truncates at the sixth decimal
    assert_eq!(fx_div(10_000_000, 3_000_000), 3_333_333);
    assert_eq!(fx_div(-10_000_000, 3_000_000), -3_333_333);
    // saturation when the divisor is tiny
    assert_eq!(fx_div(FX_MAX, 1), FX_MAX);
}

#[test]
fn fx_div_int_truncates_toward_zero() {
    assert_eq!(fx_div_int(7, 2), 3);
    assert_eq!(fx_div_int(-7, 2), -3);
    assert_eq!(fx_div_int(6, 3), 2);
}

#[test]
fn fx_clamp_forces_into_the_interval() {
    assert_eq!(fx_clamp(5, -3, 3), 3);
    assert_eq!(fx_clamp(-5, -3, 3), -3);
    assert_eq!(fx_clamp(2, -3, 3), 2);
    assert_eq!(fx_clamp(7, 7, 7), 7);
}

#[test]
fn trig_is_exact_at_level_attitude() {
    assert_eq!(fx_cos(0), SCALE);
    assert_eq!(fx_sin(0), 0);
}

#[test]
fn trig_matches_reference_values_closely() {
    // thirty degrees
    assert!((fx_sin(523_599) - 500_000).abs() <= 5);
    assert!((fx_cos(523_599) - 866_025).abs() <= 5);
    // forty-five degrees
    assert!((fx_sin(785_398) - 707_107).abs() <= 5);
    // a quarter turn and a half turn
    assert!((fx_sin(HALF_PI_FX) - SCALE).abs() <= 10);
    assert!(fx_cos(HALF_PI_FX).abs() <= 30);
    assert!((fx_cos(PI_FX) + SCALE).abs() <= 10);
    assert!(fx_sin(PI_FX).abs() <= 10);
    // beyond a half turn the sign flips
    assert!((fx_cos(2_094_395) + 500_000).abs() <= 5);  // 120 degrees
}

#[test]
fn trig_reduces_whole_turns_exactly() {
    for a in [0i64, 1, 523_599, -785_398, 3_000_000, -3_141_000] {
        assert_eq!(fx_sin(a + TWO_PI_FX), fx_sin(a));
        assert_eq!(fx_sin(a - TWO_PI_FX), fx_sin(a));
        assert_eq!(fx_cos(a + TWO_PI_FX), fx_cos(a));
    }
}

#[test]
fn trig_sine_is_odd_and_cosine_even() {
    for a in [1i64, 523_599, 785_398, 1_570_000, 2_500_000, 3_000_000] {
        assert_eq!(fx_sin(-a), -fx_sin(a));
        assert_eq!(fx_cos(-a), fx_cos(a));
    }
}

#[test]
fn cosine_near_ninety_degrees_falls_in_the_singular_band() {
    // 89.9 degrees in micro-radians
    let c = fx_cos(1_569_051);
    assert!(c.abs() < MIN_COS_DENOM);
    assert!((c - 1_745).abs() <= 50);
}
