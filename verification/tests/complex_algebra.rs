//! Checks of the Cartesian/Polar algebra over the Q24 scalar.

use mixed_num::complex::Cartesian;
use mixed_num::complex::Polar;
use mixed_num::q24::Q24;
use mixed_num::traits::MixedNumConversion;
use mixed_num::traits::MixedOne;
use mixed_num::traits::MixedZero;
use mixed_num::traits::complex_traits::Conj;
use mixed_num::traits::complex_traits::Mag;
use mixed_num::traits::complex_traits::ToCartesian;
use mixed_num::traits::complex_traits::ToPolar;

const DEN: i64 = 1 << 24;
const PI_M: i64 = 52707179;

fn q(n: i64) -> Q24 {
    <Q24 as MixedNumConversion<i64>>::mixed_from_num(n)
}

fn approx(x: Q24) -> f64 {
    (x.to_bits() as f64) / (DEN as f64)
}

#[test]
fn new_stores_components() {
    let c = Cartesian::new(q(1), q(2));
    assert_eq!(c.re.to_bits(), DEN);
    assert_eq!(c.im.to_bits(), 2 * DEN);
}

#[test]
fn mul_scenario() {
    let c = Cartesian::new(q(1), q(2));
    let p = c.mul(c);
    assert_eq!(p, Cartesian::new(q(-3), q(4)));
}

#[test]
fn conj_scenario() {
    let c = Cartesian::new(q(-2), q(4));
    let conj: Cartesian<Q24> = c.conj();
    assert_eq!(conj, Cartesian::new(q(-2), q(-4)));
}

#[test]
fn conj_involution() {
    let c = Cartesian::new(Q24::from_bits(-12345), Q24::from_bits(987654321));
    let once: Cartesian<Q24> = c.conj();
    let twice: Cartesian<Q24> = once.conj();
    assert_eq!(twice, c);
}

#[test]
fn polar_conj_flips_angle() {
    let p = Polar::new(q(2), Q24::from_bits(PI_M / 3));
    let conj: Polar<Q24> = p.conj();
    assert_eq!(conj.mag.to_bits(), 2 * DEN);
    assert_eq!(conj.ang.to_bits(), -(PI_M / 3));
}

#[test]
fn mul_by_one_is_identity() {
    let c = Cartesian::new(Q24::from_bits(-987654321), Q24::from_bits(123456789));
    let one: Cartesian<Q24> = Cartesian::mixed_one();
    assert_eq!(c.mul(one), c);
}

#[test]
fn polar_mag_times_one_is_identity() {
    let p = Polar::new(Q24::from_bits(123456789), Q24::from_bits(-PI_M / 5));
    let scaled = p.mul_scalar(<Q24 as MixedOne>::mixed_one());
    assert_eq!(scaled.mag.to_bits(), 123456789);
    assert_eq!(scaled.ang.to_bits(), -(PI_M / 5));
}

#[test]
fn division_by_zero_scalar_saturates() {
    let c = Cartesian::new(q(3), q(-7));
    let r = mixed_num::complex::ops::div_scalar_cartesian(c, <Q24 as MixedZero>::mixed_zero());
    assert_eq!(r.re.to_bits(), i64::MAX);
    assert_eq!(r.im.to_bits(), i64::MAX);
}

#[test]
fn division_assign_by_zero_saturates() {
    let mut c = Cartesian::new(q(1), q(1));
    c.div_assign(<Q24 as MixedZero>::mixed_zero());
    assert_eq!(c.re.to_bits(), i64::MAX);
    assert_eq!(c.im.to_bits(), i64::MAX);
}

#[test]
fn polar_division_by_zero_saturates() {
    let p = Polar::new(q(2), q(1));
    let r = p.div(<Q24 as MixedZero>::mixed_zero());
    assert_eq!(r.mag.to_bits(), i64::MAX);
    assert_eq!(r.ang.to_bits(), i64::MAX);
}

#[test]
fn div_scalar_halves_components() {
    let c = Cartesian::new(q(-2), q(4));
    let r = c.div(q(2));
    assert_eq!(r, Cartesian::new(q(-1), q(2)));
}

#[test]
fn div_cartesian_by_real_unit() {
    let c = Cartesian::new(q(1), q(2));
    let r = mixed_num::complex::ops::div_cartesian(c, Cartesian::new(q(1), q(0)));
    assert_eq!(r, Cartesian::new(q(1), q(2)));
}

#[test]
fn div_cartesian_by_zero_magnitude_saturates() {
    let c = Cartesian::new(q(1), q(2));
    let r = mixed_num::complex::ops::div_cartesian(c, Cartesian::new(q(0), q(0)));
    assert_eq!(r.re.to_bits(), i64::MAX);
    assert_eq!(r.im.to_bits(), i64::MAX);
}

#[test]
fn add_and_sub_are_component_wise() {
    let a = Cartesian::new(q(1), q(2));
    let b = Cartesian::new(q(3), q(-5));
    assert_eq!(mixed_num::complex::ops::add(a, b), Cartesian::new(q(4), q(-3)));
    assert_eq!(mixed_num::complex::ops::sub(a, b), Cartesian::new(q(-2), q(7)));
}

#[test]
fn mul_polar_zero_magnitude_short_circuits() {
    let a = Polar::new(q(0), q(1));
    let b = Polar::new(q(3), q(1));
    let r = mixed_num::complex::ops::mul_polar(a, b);
    assert_eq!(r.mag.to_bits(), 0);
    assert_eq!(r.ang.to_bits(), 0);
}

#[test]
fn mul_polar_multiplies_mags_adds_angles() {
    let a = Polar::new(q(2), Q24::from_bits(PI_M / 4));
    let b = Polar::new(q(3), Q24::from_bits(PI_M / 4));
    let r = mixed_num::complex::ops::mul_polar(a, b);
    assert_eq!(r.mag.to_bits(), 6 * DEN);
    assert_eq!(r.ang.to_bits(), 2 * (PI_M / 4));
}

#[test]
fn round_trip() {
    let c = Cartesian::new(q(1), q(2));
    let p = mixed_num::complex::ops::to_polar(c);
    assert!((approx(p.mag) - 5f64.sqrt()).abs() < 2e-3);
    assert!((approx(p.ang) - 2f64.atan2(1f64)).abs() < 2e-3);
    let back = mixed_num::complex::ops::to_cartesian(p);
    assert!((approx(back.re) - 1.0).abs() < 1e-2);
    assert!((approx(back.im) - 2.0).abs() < 1e-2);
}

#[test]
fn trait_round_trip_nonzero() {
    let c = Cartesian::new(q(-3), q(1));
    let back = c.to_polar().to_cartesian();
    assert!((approx(back.re) + 3.0).abs() < 2e-2);
    assert!((approx(back.im) - 1.0).abs() < 2e-2);
}

#[test]
fn polar_unit_to_cartesian() {
    let p = Polar::new(q(1), q(0));
    let c = p.to_cartesian();
    assert!((approx(c.re) - 1.0).abs() < 1e-3);
    assert_eq!(c.im.to_bits(), 0);
}

#[test]
fn cartesian_mag_of_three_four() {
    let c = Cartesian::new(q(3), q(4));
    let m = c.mag();
    assert!((approx(m) - 5.0).abs() < 5e-3);
}

#[test]
fn cartesian_to_string_scenarios() {
    assert_eq!(Cartesian::new(q(1), q(2)).to_string(), "1+2i");
    assert_eq!(Cartesian::new(q(-2), q(4)).to_string(), "-2+4i");
    assert_eq!(Cartesian::new(q(2), q(-4)).to_string(), "2-4i");
}

#[test]
fn q24_to_string_fractions() {
    assert_eq!(Q24::from_bits(DEN / 2).to_string(), "0.5");
    assert_eq!(Q24::from_bits(-(DEN + DEN / 4)).to_string(), "-1.25");
    assert_eq!(q(0).to_string(), "0");
}

#[test]
fn polar_to_string() {
    assert_eq!(Polar::new(q(1), q(0)).to_string(), "1\u{2220}0");
}

#[test]
fn num_complex_interop() {
    let a = Cartesian::new(q(1), q(2));
    let b = num::Complex::new(q(3), q(4));
    assert_eq!(a.add_complex(b), Cartesian::new(q(4), q(6)));
    assert_eq!(a.sub_complex(b), Cartesian::new(q(-2), q(-2)));
    let c = Cartesian::from_num_complex(b);
    assert_eq!(c, Cartesian::new(q(3), q(4)));
    let unit = num::Complex::new(q(1), q(0));
    assert_eq!(a.div_complex(unit), a);
}

#[test]
fn mixed_type_scalar_ops() {
    let c = Cartesian::new(q(1), q(2));
    let doubled = c.mul_scalar(2i64);
    assert_eq!(doubled, Cartesian::new(q(2), q(4)));
    let shifted = c.add_scalar(2i64);
    assert_eq!(shifted, Cartesian::new(q(3), q(2)));
    let lowered = c.sub_scalar(2i64);
    assert_eq!(lowered, Cartesian::new(q(-1), q(2)));
    let halved = Cartesian::new(q(-2), q(4)).div_scalar(2i64);
    assert_eq!(halved, Cartesian::new(q(-1), q(2)));
}

#[test]
fn cartesian_times_polar_unit() {
    let c = Cartesian::new(q(1), q(2));
    let r = c.mul_polar(Polar::new(q(1), q(0)));
    assert!((approx(r.re) - 1.0).abs() < 1e-3);
    assert!((approx(r.im) - 2.0).abs() < 1e-3);
}

#[test]
fn polar_times_cartesian() {
    let p = Polar::new(q(2), Q24::from_bits(PI_M / 4));
    let r = p.mul_cartesian(Cartesian::new(q(1), q(1)));
    assert!((approx(r.mag) - 2.0 * core::f64::consts::SQRT_2).abs() < 5e-3);
    assert!((approx(r.ang) - (core::f64::consts::FRAC_PI_4 + 2f64.sqrt().atan2(2f64.sqrt()))).abs() < 5e-3);
}

#[test]
fn cartesian_powi_squares() {
    let c = Cartesian::new(q(1), q(1));
    let r = mixed_num::complex::ops::powi(c, 2);
    assert!(approx(r.re).abs() < 1e-2);
    assert!((approx(r.im) - 2.0).abs() < 1e-2);
}
