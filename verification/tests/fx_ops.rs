//! Fixed-point scalar arithmetic.

use raymarch::fx::{
    SCALE, fx_abs, fx_add, fx_clamp, fx_div, fx_divi, fx_from_int, fx_from_u32, fx_max, fx_min,
    fx_mul, fx_neg, fx_sqrt, fx_sub, isqrt,
};

#[test]
fn from_int_scales_exactly() {
    assert_eq!(fx_from_int(5), 5_000_000);
    assert_eq!(fx_from_int(-3), -3_000_000);
    assert_eq!(fx_from_u32(7), 7_000_000);
    assert_eq!(fx_from_int(0), 0);
}

#[test]
fn add_sub_saturate() {
    assert_eq!(fx_add(1_500_000, 2_500_000), 4_000_000);
    assert_eq!(fx_add(i64::MAX, i64::MAX), i64::MAX);
    assert_eq!(fx_sub(i64::MIN, 1), i64::MIN);
    assert_eq!(fx_neg(-4_000_000), 4_000_000);
    assert_eq!(fx_abs(-2_500_000), 2_500_000);
}

#[test]
fn mul_rounds_toward_negative_infinity() {
    assert_eq!(fx_mul(1_500_000, 2_000_000), 3_000_000);
    assert_eq!(fx_mul(-500_000, 500_000), -250_000);
    // one raw unit times one: the exact product is 1/SCALE, floored
    assert_eq!(fx_mul(1, 1_000_000), 1);
    assert_eq!(fx_mul(1, 1), 0);
    assert_eq!(fx_mul(-1, 1), -1);
}

#[test]
fn div_by_positive_floors_and_rejects_rest() {
    assert_eq!(fx_div(1_000_000, 3_000_000), 333_333);
    assert_eq!(fx_div(-1_000_000, 3_000_000), -333_334);
    assert_eq!(fx_div(5, 0), 0);
    assert_eq!(fx_div(5, -2), 0);
    assert_eq!(fx_divi(-7, 2), -4);
    assert_eq!(fx_divi(7, 2), 3);
    assert_eq!(fx_divi(7, 0), 0);
}

#[test]
fn sqrt_matches_perfect_squares() {
    assert_eq!(fx_sqrt(4_000_000), 2_000_000);
    assert_eq!(fx_sqrt(SCALE), SCALE);
    assert_eq!(fx_sqrt(0), 0);
    assert_eq!(fx_sqrt(-5), 0);
    assert_eq!(fx_sqrt(2_000_000), 1_414_213);
    assert_eq!(isqrt(0), 0);
    assert_eq!(isqrt(35), 5);
    assert_eq!(isqrt(36), 6);
    assert_eq!(isqrt(u128::MAX), u64::MAX);
}

#[test]
fn min_max_clamp_pick_sides() {
    assert_eq!(fx_min(3, -4), -4);
    assert_eq!(fx_max(3, -4), 3);
    assert_eq!(fx_clamp(5, 0, 3), 3);
    assert_eq!(fx_clamp(-5, 0, 3), 0);
    assert_eq!(fx_clamp(2, 0, 3), 2);
}
