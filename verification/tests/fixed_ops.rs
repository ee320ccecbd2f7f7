//! Exact-value tests for the fixed-point arithmetic and the trigonometric
//! and exponential cores.

use convdsp::fixed::{SCALE, sat_add, sat_sub, sat_neg, mul_fx, div_fx, div_c, sqrt_fx};
use convdsp::trig::{PI_FX, TAU_FX, HALF_PI_FX, sin_fx, cos_fx, exp2_fx, gain_lin, pow1000};

fn fx(x: f64) -> i64 {
    (x * 1e9).round() as i64
}

#[test]
fn mul_fx_exact_values() {
    assert_eq!(mul_fx(fx(2.0), fx(3.0)), fx(6.0));
    assert_eq!(mul_fx(fx(-3.5), fx(2.0)), fx(-7.0));
    assert_eq!(mul_fx(fx(0.5), fx(0.5)), fx(0.25));
    assert_eq!(mul_fx(fx(1.0), 7), 7);
    assert_eq!(mul_fx(fx(123.456), 0), 0);
}

#[test]
fn mul_fx_truncates_toward_zero() {
    // 1e-9 * 0.5 = 5e-10, which truncates to zero in either sign.
    assert_eq!(mul_fx(1, fx(0.5)), 0);
    assert_eq!(mul_fx(-1, fx(0.5)), 0);
}

#[test]
fn div_fx_exact_values() {
    assert_eq!(div_fx(fx(6.0), fx(3.0)), fx(2.0));
    assert_eq!(div_fx(fx(1.0), fx(-4.0)), fx(-0.25));
    assert_eq!(div_fx(fx(1.0), fx(3.0)), 333_333_333);
    assert_eq!(div_fx(fx(-1.0), fx(3.0)), -333_333_333);
}

#[test]
fn div_fx_by_zero_is_silence() {
    assert_eq!(div_fx(fx(123.0), 0), 0);
    assert_eq!(div_fx(i64::MIN, 0), 0);
}

#[test]
fn div_fx_by_self_is_unit() {
    assert_eq!(div_fx(fx(7.25), fx(7.25)), SCALE);
    assert_eq!(div_fx(fx(-0.001), fx(-0.001)), SCALE);
    assert_eq!(div_fx(1, 1), SCALE);
}

#[test]
fn saturation_at_the_rails() {
    assert_eq!(sat_add(i64::MAX, 1), i64::MAX);
    assert_eq!(sat_add(i64::MIN, -1), i64::MIN);
    assert_eq!(sat_sub(i64::MIN, 1), i64::MIN);
    assert_eq!(sat_neg(i64::MIN), i64::MAX);
    assert_eq!(mul_fx(i64::MAX, fx(4.0)), i64::MAX);
    assert_eq!(div_fx(i64::MAX, 1), i64::MAX);
    assert_eq!(sat_add(fx(1.0), fx(2.0)), fx(3.0));
}

#[test]
fn div_c_truncates() {
    assert_eq!(div_c(7, 2), 3);
    assert_eq!(div_c(-7, 2), -3);
    assert_eq!(div_c(fx(1.0), 4), fx(0.25));
}

#[test]
fn sqrt_fx_exact_squares() {
    assert_eq!(sqrt_fx(fx(4.0)), fx(2.0));
    assert_eq!(sqrt_fx(fx(1.0)), fx(1.0));
    assert_eq!(sqrt_fx(fx(0.25)), fx(0.5));
    assert_eq!(sqrt_fx(0), 0);
    assert_eq!(sqrt_fx(fx(-9.0)), 0);
}

#[test]
fn sqrt_fx_matches_float_sqrt() {
    let r = sqrt_fx(fx(2.0));
    let expect = fx(2.0_f64.sqrt());
    assert!((r - expect).abs() <= 1, "sqrt(2) = {r}");
}

#[test]
fn sin_fx_key_angles() {
    assert_eq!(sin_fx(0), 0);
    let s1 = sin_fx(HALF_PI_FX);
    assert!((s1 - SCALE).abs() <= 100, "sin(pi/2) = {s1}");
    let s2 = sin_fx(PI_FX);
    assert!(s2.abs() <= 5, "sin(pi) = {s2}");
    let s3 = sin_fx(PI_FX + HALF_PI_FX);
    assert!((s3 + SCALE).abs() <= 100, "sin(3pi/2) = {s3}");
    let s4 = sin_fx(TAU_FX);
    assert!(s4.abs() <= 5, "sin(2pi) = {s4}");
}

#[test]
fn sin_fx_matches_float_sine() {
    for k in 0..32 {
        let ang = k as f64 * 0.25 - 4.0;
        let r = sin_fx(fx(ang));
        let expect = fx(ang.sin());
        assert!((r - expect).abs() < 100, "sin({ang}) = {r}, expected {expect}");
    }
}

#[test]
fn cos_fx_key_angles() {
    let c0 = cos_fx(0);
    assert!((c0 - SCALE).abs() <= 100, "cos(0) = {c0}");
    let c1 = cos_fx(HALF_PI_FX);
    assert!(c1.abs() <= 5, "cos(pi/2) = {c1}");
    let c2 = cos_fx(PI_FX);
    assert!((c2 + SCALE).abs() <= 100, "cos(pi) = {c2}");
}

#[test]
fn exp2_fx_exact_at_integers() {
    assert_eq!(exp2_fx(0), SCALE);
    let two = exp2_fx(SCALE);
    assert!((two - 2 * SCALE).abs() < 10, "2^1 = {two}");
    let eighth = exp2_fx(fx(-3.0));
    assert!((eighth - fx(0.125)).abs() < 10, "2^-3 = {eighth}");
    let k = exp2_fx(fx(10.0));
    assert!((k - fx(1024.0)).abs() < 4000, "2^10 = {k}");
}

#[test]
fn gain_lin_unity_at_zero_db() {
    assert_eq!(gain_lin(0), SCALE);
    let g = gain_lin(fx(40.0));
    assert!((g - fx(10.0)).abs() < 100, "10^(40/40) = {g}");
}

#[test]
fn pow1000_endpoints() {
    assert_eq!(pow1000(0), SCALE);
    let k = pow1000(SCALE);
    assert!((k - fx(1000.0)).abs() < 10_000, "1000^1 = {k}");
}
