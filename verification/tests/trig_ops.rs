//! Fixed-point transcendental functions.

use raymarch::fx::SCALE;
use raymarch::trig::{
    HALF_PI, LN2, PI, QUARTER_PI, fx_acos, fx_atan2, fx_cos, fx_exp, fx_ln, fx_pow, fx_sin,
    fx_tan,
};

fn close(a: i64, b: i64, tol: i64) -> bool {
    (a - b).abs() <= tol
}

#[test]
fn sine_exact_at_zero_and_quarter_turns() {
    assert_eq!(fx_sin(0), 0);
    assert_eq!(fx_sin(HALF_PI), SCALE);
    assert_eq!(fx_sin(-HALF_PI), -SCALE);
    assert!(fx_sin(PI).abs() <= 10);
    // a whole turn away lands on the same reduced angle
    assert!(close(fx_sin(HALF_PI + 6_283_185), fx_sin(HALF_PI), 20));
}

#[test]
fn cosine_exact_at_zero_and_half_turn() {
    assert_eq!(fx_cos(0), SCALE);
    assert_eq!(fx_cos(PI), -SCALE);
    assert_eq!(fx_cos(HALF_PI), 0);
    assert_eq!(fx_cos(-HALF_PI), 0);
    assert!(close(fx_cos(QUARTER_PI), 707_107, 100));
}

#[test]
fn tangent_near_one_at_eighth_turn() {
    assert!(close(fx_tan(QUARTER_PI), SCALE, 3_000));
    assert!(fx_tan(0).abs() <= 5);
}

#[test]
fn atan2_picks_quadrants() {
    assert_eq!(fx_atan2(0, 0), 0);
    assert_eq!(fx_atan2(SCALE, 0), HALF_PI);
    assert_eq!(fx_atan2(-SCALE, 0), -HALF_PI);
    assert!(close(fx_atan2(0, -SCALE), PI, 2_000));
    assert!(close(fx_atan2(SCALE, SCALE), QUARTER_PI, 2_000));
    assert!(close(fx_atan2(-SCALE, SCALE), -QUARTER_PI, 2_000));
}

#[test]
fn acos_hits_quarter_turn_at_zero() {
    assert_eq!(fx_acos(0), HALF_PI);
    assert!(fx_acos(SCALE).abs() <= 2_000);
    assert!(close(fx_acos(-SCALE), PI, 2_000));
    // arguments beyond the unit interval are clamped
    assert_eq!(fx_acos(5 * SCALE), fx_acos(SCALE));
}

#[test]
fn ln_exact_on_powers_of_two() {
    assert_eq!(fx_ln(SCALE), 0);
    assert_eq!(fx_ln(2 * SCALE), LN2);
    assert_eq!(fx_ln(4 * SCALE), 2 * LN2);
    assert_eq!(fx_ln(SCALE / 2), -LN2);
    assert_eq!(fx_ln(0), 0);
    assert_eq!(fx_ln(-7), 0);
    // ln(e) is one, within the series' error
    assert!(close(fx_ln(2_718_282), SCALE, 2_000));
}

#[test]
fn exp_exact_on_multiples_of_ln_two() {
    assert_eq!(fx_exp(0), SCALE);
    assert_eq!(fx_exp(LN2), 2 * SCALE);
    assert_eq!(fx_exp(2 * LN2), 4 * SCALE);
    assert_eq!(fx_exp(-40 * SCALE), 0);
    assert_eq!(fx_exp(40 * SCALE), i64::MAX);
}

#[test]
fn pow_squares_two_exactly() {
    assert_eq!(fx_pow(2 * SCALE, 2 * SCALE), 4 * SCALE);
    assert_eq!(fx_pow(0, 3 * SCALE), 0);
    assert_eq!(fx_pow(-SCALE, 2 * SCALE), 0);
    assert_eq!(fx_pow(SCALE, 8 * SCALE), SCALE);
    assert!(close(fx_pow(2 * SCALE, 3 * SCALE), 8 * SCALE, 20_000));
}
