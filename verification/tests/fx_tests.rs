//! Exact-value tests for the fixed-point scalar layer and the
//! transcendental approximations built on it.

use softrender::fx::{
    fx_add, fx_sub, fx_neg, fx_mul, fx_div, fx_min, fx_max, fx_euc_mod, fx_floor_rem, fx_sqrt,
    fx_clamp_i32, FX_ONE, FX_MAX, FX_MIN,
};
use softrender::matrix::{multiply_matrix_vector4, Mat4};
use softrender::trig::{
    fx_sin, fx_cos, fx_tan, fx_atan, fx_exp_neg, fx_noise3, FX_PI, FX_HALF_PI,
};
use softrender::vectors::{Vector3, Vector4};

#[test]
fn add_and_sub_are_exact_in_range() {
    assert_eq!(fx_add(65536, 131072), 196608);
    assert_eq!(fx_sub(65536, 131072), -65536);
    assert_eq!(fx_neg(-5), 5);
}

#[test]
fn add_saturates_symmetrically() {
    assert_eq!(fx_add(FX_MAX, 1), FX_MAX);
    assert_eq!(fx_sub(FX_MIN, 1), FX_MIN);
    assert_eq!(fx_neg(FX_MIN), FX_MAX);
    assert_eq!(fx_neg(i64::MIN), FX_MAX);
}

#[test]
fn mul_matches_real_products() {
    // 2.0 * 3.0 == 6.0
    assert_eq!(fx_mul(2 * FX_ONE, 3 * FX_ONE), 6 * FX_ONE);
    // -2.0 * 3.0 == -6.0
    assert_eq!(fx_mul(-2 * FX_ONE, 3 * FX_ONE), -6 * FX_ONE);
    // 0.5 * 0.5 == 0.25
    assert_eq!(fx_mul(32768, 32768), 16384);
    // rounding is toward zero on both sides
    assert_eq!(fx_mul(1, 1), 0);
    assert_eq!(fx_mul(-1, 1), 0);
}

#[test]
fn div_matches_real_quotients() {
    assert_eq!(fx_div(6 * FX_ONE, 2 * FX_ONE), 3 * FX_ONE);
    assert_eq!(fx_div(FX_ONE, 3 * FX_ONE), 21845);
    assert_eq!(fx_div(-FX_ONE, 3 * FX_ONE), -21845);
    assert_eq!(fx_div(FX_ONE, -3 * FX_ONE), -21845);
}

#[test]
fn min_max_clamp() {
    assert_eq!(fx_min(3, 7), 3);
    assert_eq!(fx_max(3, 7), 7);
    assert_eq!(fx_clamp_i32(1i64 << 40), i32::MAX);
    assert_eq!(fx_clamp_i32(-(1i64 << 40)), i32::MIN);
    assert_eq!(fx_clamp_i32(-7), -7);
}

#[test]
fn euclidean_mod_and_floor() {
    assert_eq!(fx_euc_mod(-5, 3), 1);
    assert_eq!(fx_euc_mod(5, 3), 2);
    let fr = fx_floor_rem(-1);
    assert_eq!(fr.0, -1);
    assert_eq!(fr.1, 65535);
    let fr2 = fx_floor_rem(65536 + 5);
    assert_eq!(fr2.0, 1);
    assert_eq!(fr2.1, 5);
}

#[test]
fn sqrt_exact_on_squares() {
    assert_eq!(fx_sqrt(0), 0);
    assert_eq!(fx_sqrt(FX_ONE), FX_ONE);
    assert_eq!(fx_sqrt(4 * FX_ONE), 2 * FX_ONE);
    assert_eq!(fx_sqrt(9 * FX_ONE), 3 * FX_ONE);
}

#[test]
fn sine_has_the_key_zeroes_and_peak() {
    assert_eq!(fx_sin(0), 0);
    assert_eq!(fx_sin(FX_PI), 0);
    let peak = fx_sin(FX_HALF_PI);
    assert!(peak > 65000 && peak <= FX_ONE, "sin(pi/2) ~ 1, got {peak}");
    let trough = fx_sin(FX_PI + FX_HALF_PI);
    assert!(trough < -65000 && trough >= -FX_ONE, "sin(3pi/2) ~ -1, got {trough}");
}

#[test]
fn cosine_and_tangent_track_sine() {
    let c0 = fx_cos(0);
    assert!(c0 > 65000 && c0 <= FX_ONE, "cos(0) ~ 1, got {c0}");
    assert_eq!(fx_tan(0), 0);
    // periodicity: the same angle one full turn later gives the same value
    assert_eq!(fx_sin(12345), fx_sin(12345 + 2 * FX_PI + 1));
}

#[test]
fn atan_is_odd_and_bounded_by_a_quarter_turn() {
    assert_eq!(fx_atan(0), 0);
    assert_eq!(fx_atan(-98304), -fx_atan(98304));
    let big = fx_atan(1000 * FX_ONE);
    assert!(big > 0 && big <= FX_HALF_PI);
}

#[test]
fn exp_neg_starts_at_one_and_decays() {
    assert_eq!(fx_exp_neg(0), FX_ONE);
    let e1 = fx_exp_neg(FX_ONE);
    let e2 = fx_exp_neg(2 * FX_ONE);
    assert!(0 < e2 && e2 < e1 && e1 < FX_ONE);
}

#[test]
fn identity_matrix_fixes_every_vector() {
    let m = Mat4::identity();
    let v = Vector4::new(3 * FX_ONE, -2 * FX_ONE, 32768, FX_ONE);
    assert_eq!(multiply_matrix_vector4(&m, &v), v);
}

#[test]
fn vector_arithmetic_matches_componentwise_expectations() {
    let a = Vector3::new(FX_ONE, 2 * FX_ONE, -FX_ONE);
    let b = Vector3::new(3 * FX_ONE, -FX_ONE, 32768);
    assert_eq!(a.add(&b), Vector3::new(4 * FX_ONE, FX_ONE, -32768));
    assert_eq!(a.sub(&b), Vector3::new(-2 * FX_ONE, 3 * FX_ONE, -98304));
    assert_eq!(a.mul(&b), Vector3::new(3 * FX_ONE, -2 * FX_ONE, -32768));
    assert_eq!(a.scale(32768), Vector3::new(32768, FX_ONE, -32768));
    assert_eq!(a.dot(&b), 3 * FX_ONE - 2 * FX_ONE - 32768);
    // a 3-4-5 triangle in the x/y plane has length exactly 5
    let c = Vector3::new(3 * FX_ONE, 4 * FX_ONE, 0);
    assert_eq!(c.len(), 5 * FX_ONE);
    let n = c.normalize_or_keep();
    assert_eq!(n, Vector3::new(39321, 52428, 0));
    // the zero vector is left untouched rather than divided by zero
    assert_eq!(Vector3::zero().normalize_or_keep(), Vector3::zero());
}

#[test]
fn noise_is_deterministic_and_in_range() {
    let a = fx_noise3(42, 123456, -789, 55555);
    let b = fx_noise3(42, 123456, -789, 55555);
    assert_eq!(a, b);
    assert!(0 <= a && a <= FX_ONE);
    let c = fx_noise3(42, 999999, 888888, 777777);
    assert!(0 <= c && c <= FX_ONE);
}
