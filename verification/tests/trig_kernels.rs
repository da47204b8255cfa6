//! Checks of the representation-agnostic kernels, instantiated with the
//! library's own Q24 fixed-point scalar.

use mixed_num::q24::Q24;
use mixed_num::traits::MixedNumConversion;
use mixed_num::traits::math_traits::MixedAtan;
use mixed_num::traits::math_traits::MixedSin;
use mixed_num::traits::math_traits::MixedSqrt;

/// One in Q24 mantissa units.
const DEN: i64 = 1 << 24;
/// The Q24 mantissa of pi.
const PI_M: i64 = 52707179;

fn q(n: i64) -> Q24 {
    <Q24 as MixedNumConversion<i64>>::mixed_from_num(n)
}

fn approx(x: Q24) -> f64 {
    (x.to_bits() as f64) / (DEN as f64)
}

#[test]
fn sign_unit_values() {
    let neg = mixed_num::trigonometry::sign(Q24::from_bits(-3355443));
    assert_eq!(neg.to_bits(), -DEN);
    let pos = mixed_num::trigonometry::sign(Q24::from_bits(3355443));
    assert_eq!(pos.to_bits(), DEN);
    let zero = mixed_num::trigonometry::sign(Q24::from_bits(0));
    assert_eq!(zero.to_bits(), DEN);
}

#[test]
fn sin_zero_is_zero() {
    let y = mixed_num::trigonometry::sin(q(0));
    assert_eq!(y.to_bits(), 0);
}

#[test]
fn sin_half_pi_near_one() {
    let y = mixed_num::trigonometry::sin(Q24::from_bits(PI_M / 2));
    assert!((approx(y) - 1.0).abs() < 5e-3);
}

#[test]
fn sin_near_pi_is_small() {
    let y = mixed_num::trigonometry::sin(Q24::from_bits(PI_M - 1));
    assert!(approx(y).abs() < 1e-3);
}

#[test]
fn cos_zero_near_one() {
    let y = mixed_num::trigonometry::cos(q(0));
    assert!((approx(y) - 1.0).abs() < 5e-3);
}

#[test]
fn cos_half_pi_is_small() {
    let y = mixed_num::trigonometry::cos(Q24::from_bits(PI_M / 2));
    assert!(approx(y).abs() < 1e-3);
}

#[test]
fn wrap_phase_six_radians() {
    let wrapped = mixed_num::trigonometry::wrap_phase(q(6));
    assert_eq!(wrapped.to_bits(), 6 * DEN - 2 * PI_M);
    assert!((approx(wrapped) + 0.2831853).abs() < 1e-6);
}

#[test]
fn wrap_phase_range_and_congruence() {
    let tau = 2 * PI_M;
    let mut bits: i64 = -20 * DEN;
    while bits <= 20 * DEN {
        let wrapped = mixed_num::trigonometry::wrap_phase(Q24::from_bits(bits));
        let w = wrapped.to_bits();
        assert!(-PI_M <= w && w < PI_M);
        assert_eq!((bits - w).rem_euclid(tau), 0);
        bits += 7 * DEN / 3 + 1;
    }
}

#[test]
fn wrap_phase_identity_inside_range() {
    let wrapped = mixed_num::trigonometry::wrap_phase(Q24::from_bits(-PI_M));
    assert_eq!(wrapped.to_bits(), -PI_M);
    let wrapped_two = mixed_num::trigonometry::wrap_phase(q(2));
    assert_eq!(wrapped_two.to_bits(), 2 * DEN);
}

#[test]
fn powi_squares_negative_base() {
    let y = mixed_num::trigonometry::powi(q(-2), 2);
    assert_eq!(y.to_bits(), 4 * DEN);
}

#[test]
fn powi_first_power_is_identity() {
    let x = Q24::from_bits(12345678);
    let y = mixed_num::trigonometry::powi(x, 1);
    assert_eq!(y.to_bits(), x.to_bits());
}

#[test]
fn powi_zero_power_is_one() {
    let y = mixed_num::trigonometry::powi(q(-7), 0);
    assert_eq!(y.to_bits(), DEN);
}

#[test]
fn atan2_zero_zero_is_zero() {
    let y = mixed_num::trigonometry::atan::atan2(q(0), q(0));
    assert_eq!(y.to_bits(), 0);
}

#[test]
fn atan2_positive_axis_is_zero() {
    let y = mixed_num::trigonometry::atan::atan2(q(0), q(1));
    assert_eq!(y.to_bits(), 0);
}

#[test]
fn atan2_negative_axis_wraps_to_minus_pi() {
    let y = mixed_num::trigonometry::atan::atan2(q(0), q(-1));
    assert_eq!(y.to_bits(), -PI_M);
}

#[test]
fn atan2_diagonal_near_quarter_pi() {
    let y = mixed_num::trigonometry::atan::atan2(q(1), q(1));
    assert!((approx(y) - core::f64::consts::FRAC_PI_4).abs() < 2e-3);
}

#[test]
fn atan2_vertical_near_half_pi() {
    let y = mixed_num::trigonometry::atan::atan2(q(1), q(0));
    assert!((approx(y) - core::f64::consts::FRAC_PI_2).abs() < 2e-3);
    let z = mixed_num::trigonometry::atan::atan2(q(-1), q(0));
    assert!((approx(z) + core::f64::consts::FRAC_PI_2).abs() < 2e-3);
}

#[test]
fn atan_of_ratio() {
    let x = Q24::from_bits(6 * DEN / 10);
    let y = x.mixed_atan();
    assert!((approx(y) - 0.5404195).abs() < 2e-3);
}

#[test]
fn sqrt_niirf_four() {
    let y = mixed_num::trigonometry::sqrt::niirf(q(4), 2);
    assert!((approx(y) - 2.0).abs() < 5e-4);
}

#[test]
fn sqrt_niirf_zero() {
    let y = mixed_num::trigonometry::sqrt::niirf(q(0), 2);
    assert_eq!(y.to_bits(), 0);
}

#[test]
fn sqrt_niirf_quarter() {
    let y = mixed_num::trigonometry::sqrt::niirf(Q24::from_bits(DEN / 4), 2);
    assert!((approx(y) - 0.5).abs() < 1e-5);
}

#[test]
fn mixed_sqrt_of_two() {
    let y = q(2).mixed_sqrt();
    assert!((approx(y) - core::f64::consts::SQRT_2).abs() < 5e-4);
}

#[test]
fn mixed_sin_beyond_pi_wraps_first() {
    let y = q(6).mixed_sin();
    assert!((approx(y) - (6f64).sin()).abs() < 5e-3);
}
