//! Checks of the Q24 scalar's capability implementations: conversions,
//! saturating arithmetic, ordering, rounding.

use mixed_num::q24::Q24;
use mixed_num::traits::MixedCeil;
use mixed_num::traits::MixedFloor;
use mixed_num::traits::MixedNum;
use mixed_num::traits::MixedNumConversion;
use mixed_num::traits::MixedNumSigned;
use mixed_num::traits::MixedPi;
use mixed_num::traits::math_traits::MixedAbs;
use mixed_num::traits::math_traits::MixedOps;
use mixed_num::traits::math_traits::MixedPowi;

const DEN: i64 = 1 << 24;

fn q(n: i64) -> Q24 {
    <Q24 as MixedNumConversion<i64>>::mixed_from_num(n)
}

#[test]
fn conversion_round_trips_integers() {
    let x = q(3);
    assert_eq!(x.to_bits(), 3 * DEN);
    let back: i64 = x.mixed_to_num();
    assert_eq!(back, 3);
    let neg: i64 = q(-3).mixed_to_num();
    assert_eq!(neg, -3);
}

#[test]
fn conversion_truncates_toward_zero() {
    let x = Q24::from_bits(3 * DEN / 2);
    let t: i64 = x.mixed_to_num();
    assert_eq!(t, 1);
    let y = Q24::from_bits(-(3 * DEN / 2));
    let u: i64 = y.mixed_to_num();
    assert_eq!(u, -1);
}

#[test]
fn conversion_to_unsigned_clamps_negatives() {
    let x = q(-5);
    let u: u32 = x.mixed_to_num();
    assert_eq!(u, 0);
    let v: u64 = x.mixed_to_num();
    assert_eq!(v, 0);
}

#[test]
fn conversion_saturates_large_inputs() {
    let x: Q24 = <Q24 as MixedNumConversion<i64>>::mixed_from_num(i64::MAX);
    assert_eq!(x.to_bits(), i64::MAX);
    let y: Q24 = <Q24 as MixedNumConversion<u64>>::mixed_from_num(u64::MAX);
    assert_eq!(y.to_bits(), i64::MAX);
    let big = Q24::from_bits(i64::MAX);
    let t: i32 = big.mixed_to_num();
    assert_eq!(t, i32::MAX);
}

#[test]
fn arithmetic_matches_fixed_point_semantics() {
    let a = Q24::from_bits(3 * DEN / 2);
    let b = Q24::from_bits(DEN / 2);
    assert_eq!(a.mixed_add(b).to_bits(), 2 * DEN);
    assert_eq!(a.mixed_sub(b).to_bits(), DEN);
    assert_eq!(a.mixed_mul(b).to_bits(), 3 * DEN / 4);
    assert_eq!(a.mixed_div(b).to_bits(), 3 * DEN);
}

#[test]
fn arithmetic_saturates_at_range_ends() {
    let top = Q24::from_bits(i64::MAX);
    assert_eq!(top.mixed_add(top).to_bits(), i64::MAX);
    let bottom = Q24::from_bits(i64::MIN);
    assert_eq!(bottom.mixed_sub(top).to_bits(), i64::MIN);
    assert_eq!(bottom.mixed_neg().to_bits(), i64::MAX);
}

#[test]
fn sign_queries() {
    assert!(q(3).mixed_is_positive());
    assert!(!q(0).mixed_is_positive());
    assert!(q(-3).mixed_is_negative());
    assert_eq!(q(-3).mixed_sign().to_bits(), -DEN);
    assert_eq!(q(0).mixed_sign().to_bits(), DEN);
    assert_eq!(q(-3).mixed_abs().to_bits(), 3 * DEN);
}

#[test]
fn ordering_queries() {
    assert!(q(1).mixed_lt(&q(2)));
    assert!(!q(2).mixed_lt(&q(2)));
    assert!(q(2).mixed_eq(&q(2)));
    assert_eq!(Q24::mixed_max_value().to_bits(), i64::MAX);
    assert_eq!(Q24::mixed_min_value().to_bits(), i64::MIN);
}

#[test]
fn pi_and_tau_constants() {
    let pi = Q24::mixed_pi();
    assert_eq!(pi.to_bits(), 52707179);
    let tau = Q24::mixed_tau();
    assert_eq!(tau.to_bits(), 2 * 52707179);
    let pif = (pi.to_bits() as f64) / (DEN as f64);
    assert!((pif - core::f64::consts::PI).abs() < 1e-7);
}

#[test]
fn powi_method_matches_kernel() {
    assert_eq!(q(3).mixed_powi(2).to_bits(), 9 * DEN);
    assert_eq!(q(3).mixed_powi(1).to_bits(), 3 * DEN);
    assert_eq!(q(3).mixed_powi(0).to_bits(), DEN);
}

#[test]
fn ceil_and_floor() {
    let x = Q24::from_bits(3 * DEN / 2);
    assert_eq!(x.mixed_ceil().to_bits(), 2 * DEN);
    assert_eq!(x.mixed_floor().to_bits(), DEN);
    let y = Q24::from_bits(-(3 * DEN / 2));
    assert_eq!(y.mixed_ceil().to_bits(), -DEN);
    assert_eq!(y.mixed_floor().to_bits(), -2 * DEN);
    assert_eq!(q(2).mixed_ceil().to_bits(), 2 * DEN);
    assert_eq!(q(2).mixed_floor().to_bits(), 2 * DEN);
}
