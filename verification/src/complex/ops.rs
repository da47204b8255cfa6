//! Arithmetic on the complex forms, written once over the numeric
//! capability contracts.

use vstd::prelude::*;

use crate::complex::Cartesian;
use crate::complex::Polar;
use crate::traits::MixedNum;
use crate::traits::MixedNumConversion;
use crate::traits::MixedNumSigned;
use crate::traits::MixedPi;
use crate::traits::MixedVal;
use crate::traits::add_val;
use crate::traits::div_val;
use crate::traits::mul_val;
use crate::traits::sub_val;
use crate::traits::math_traits::MixedAbs;
use crate::traits::math_traits::MixedAtan;
use crate::traits::math_traits::MixedOps;
use crate::traits::math_traits::MixedPowi;
use crate::traits::math_traits::MixedSin;
use crate::traits::math_traits::MixedSqrt;
use crate::traits::math_traits::MixedTrigonometry;
use crate::traits::math_traits::MixedWrapPhase;
use crate::traits::math_traits::powi_val;
use crate::traits::math_traits::wrap_val;

verus! {

/// Mantissa of the squared magnitude `re^2 + im^2` as the complex layer
/// computes it.
pub open spec fn abs2_val<T: MixedVal>(re: int, im: int) -> int {
    add_val::<T>(powi_val::<T>(re, 2), powi_val::<T>(im, 2))
}

/// The magnitude of a Cartesian value: the backing scalar's square root of
/// the squared magnitude.
pub open spec fn cartesian_mag_spec<T: MixedVal + MixedSqrt>(re: int, im: int) -> T {
    (T::from_val(abs2_val::<T>(re, im))).sqrt_spec()
}

/// The sine/cosine pair of a wrapped angle, as `to_cartesian` uses it.
pub open spec fn polar_sincos_spec<T: MixedVal + MixedPi + MixedSin>(ang: int) -> (T, T) {
    (T::from_val(wrap_val::<T>(ang))).sincos_spec()
}

/// Cast a Cartesian complex number to polar form.
///
/// The magnitude is the square-root capability applied to `re^2 + im^2`;
/// the angle is the arctangent capability applied to `(im, re)`.
///
/// ## Arguments
///
/// * `x` - The number to transform.
pub fn to_polar<T: MixedNum + MixedNumSigned + MixedSqrt + MixedAtan + MixedPowi + MixedAbs + MixedOps>(
    x: Cartesian<T>,
) -> (c: Polar<T>)
    ensures
        c.mag == cartesian_mag_spec::<T>(x.re.val(), x.im.val()),
        c.ang == x.im.atan2_spec(x.re),
{
    let c_polar = Polar::<T> { mag: abs(x), ang: x.im.mixed_atan2(x.re) };
    c_polar
}

/// Calculate the absolute value (magnitude) of a Cartesian complex number.
///
/// ## Arguments
///
/// * `a` - The argument to apply the function to.
pub fn abs<T: MixedNum + MixedNumSigned + MixedSqrt + MixedPowi + MixedOps>(
    a: Cartesian<T>,
) -> (r: T)
    ensures
        r == cartesian_mag_spec::<T>(a.re.val(), a.im.val()),
{
    let r_sqr: T = a.re.mixed_powi(2).mixed_add(a.im.mixed_powi(2));
    proof {
        r_sqr.law_from_val_of();
    }
    r_sqr.mixed_sqrt()
}

/// Cast a polar complex number to Cartesian form.
///
/// The angle is wrapped into `[-pi, pi)`, its sine and cosine are taken
/// from the trigonometric capability, and each is scaled by the magnitude.
///
/// ## Arguments
///
/// * `a` - The number to transform.
pub fn to_cartesian<T: MixedNum + MixedNumSigned + MixedTrigonometry + MixedWrapPhase + MixedOps>(
    a: Polar<T>,
) -> (c: Cartesian<T>)
    ensures
        c.re.val() == mul_val::<T>(a.mag.val(), polar_sincos_spec::<T>(a.ang.val()).1.val()),
        c.im.val() == mul_val::<T>(a.mag.val(), polar_sincos_spec::<T>(a.ang.val()).0.val()),
{
    let theta: T = a.ang.mixed_wrap_phase();
    proof {
        theta.law_from_val_of();
    }
    let sc = theta.mixed_sincos();
    let imag_s: T = sc.0;
    let real_s: T = sc.1;
    let c_cartesian = Cartesian::<T> { re: a.mag.mixed_mul(real_s), im: a.mag.mixed_mul(imag_s) };
    c_cartesian
}

/// Add two complex numbers in Cartesian form, component-wise.
pub fn add<T: MixedNum + MixedOps>(a: Cartesian<T>, b: Cartesian<T>) -> (c: Cartesian<T>)
    ensures
        c.re.val() == add_val::<T>(a.re.val(), b.re.val()),
        c.im.val() == add_val::<T>(a.im.val(), b.im.val()),
{
    let c_cartesian = Cartesian::<T> { re: a.re.mixed_add(b.re), im: a.im.mixed_add(b.im) };
    c_cartesian
}

/// Subtract `b` from `a`, component-wise.
/// `c = a - b`
pub fn sub<T: MixedNum + MixedNumSigned + MixedOps>(a: Cartesian<T>, b: Cartesian<T>) -> (c: Cartesian<T>)
    ensures
        c.re.val() == sub_val::<T>(a.re.val(), b.re.val()),
        c.im.val() == sub_val::<T>(a.im.val(), b.im.val()),
{
    let c_cartesian = Cartesian::<T> { re: a.re.mixed_sub(b.re), im: a.im.mixed_sub(b.im) };
    c_cartesian
}

/// Multiply two complex numbers in polar form.
///
/// A zero magnitude on either side short-circuits to the zero polar value
/// (zero magnitude, zero angle) rather than propagating a degenerate angle
/// sum; otherwise the magnitudes multiply and the angles add.
pub fn mul_polar<T: MixedNum + MixedNumSigned + MixedOps>(a: Polar<T>, b: Polar<T>) -> (c: Polar<T>)
    ensures
        (a.mag.val() == 0 || b.mag.val() == 0) ==> c.mag.val() == 0 && c.ang.val() == 0,
        (a.mag.val() != 0 && b.mag.val() != 0) ==> c.mag.val() == mul_val::<T>(
            a.mag.val(),
            b.mag.val(),
        ) && c.ang.val() == add_val::<T>(a.ang.val(), b.ang.val()),
{
    proof {
        T::law_model();
        T::law_from_i64(0i64);
    }
    let zero: T = T::mixed_from_num(0i64);
    if a.mag.mixed_eq(&zero) || b.mag.mixed_eq(&zero) {
        let c = Polar::<T> { mag: T::mixed_from_num(0i64), ang: T::mixed_from_num(0i64) };
        c
    } else {
        let c = Polar::<T> { mag: a.mag.mixed_mul(b.mag), ang: a.ang.mixed_add(b.ang) };
        c
    }
}

/// Multiply two Cartesian complex numbers:
/// `(a + bi)(c + di) = (ac - bd) + (ad + bc)i`.
pub fn mul_cartesian<T: MixedNum + MixedNumSigned + MixedOps>(
    ab: Cartesian<T>,
    bc: Cartesian<T>,
) -> (r: Cartesian<T>)
    ensures
        r.re.val() == sub_val::<T>(
            mul_val::<T>(ab.re.val(), bc.re.val()),
            mul_val::<T>(ab.im.val(), bc.im.val()),
        ),
        r.im.val() == add_val::<T>(
            mul_val::<T>(ab.re.val(), bc.im.val()),
            mul_val::<T>(ab.im.val(), bc.re.val()),
        ),
{
    let a: T = ab.re;
    let b: T = ab.im;
    let c: T = bc.re;
    let d: T = bc.im;

    let re: T = a.mixed_mul(c).mixed_sub(b.mixed_mul(d));
    let im: T = a.mixed_mul(d).mixed_add(b.mixed_mul(c));
    Cartesian { re: re, im: im }
}

/// Raise a Cartesian complex number to an integer power through its polar
/// decomposition: the magnitude is raised to the power, the argument is
/// scaled by it, and the result is rebuilt from sine and cosine.
///
/// ## Arguments
///
/// * `base`  - The complex base number.
/// * `power` - The power to raise `base` to.
pub fn powi<T: MixedNum + MixedNumSigned + MixedOps + MixedPowi + MixedAtan + MixedSin + MixedSqrt>(
    base: Cartesian<T>,
    power: usize,
) -> (r: Cartesian<T>)
    requires
        power <= 0x7fffffff,
    ensures
        r.re.val() == mul_val::<T>(
            powi_val::<T>(cartesian_mag_spec::<T>(base.re.val(), base.im.val()).val(), power as nat),
            (T::from_val(
                mul_val::<T>(
                    base.im.atan2_spec(base.re).val(),
                    (<T as MixedNumConversion<i64>>::from_num_spec(power as i64)).val(),
                ),
            )).sincos_spec().1.val(),
        ),
        r.im.val() == mul_val::<T>(
            powi_val::<T>(cartesian_mag_spec::<T>(base.re.val(), base.im.val()).val(), power as nat),
            (T::from_val(
                mul_val::<T>(
                    base.im.atan2_spec(base.re).val(),
                    (<T as MixedNumConversion<i64>>::from_num_spec(power as i64)).val(),
                ),
            )).sincos_spec().0.val(),
        ),
{
    // Raised magnitude.
    let temp: T = base.re.mixed_powi(2).mixed_add(base.im.mixed_powi(2));
    proof {
        temp.law_from_val_of();
    }
    let mag: T = temp.mixed_sqrt().mixed_powi(power as i32);

    let phi: T = base.im.mixed_atan2(base.re).mixed_mul(T::mixed_from_num(power as i64));
    proof {
        phi.law_from_val_of();
    }
    let sc = phi.mixed_sincos();
    let imag_s: T = sc.0;
    let real_s: T = sc.1;

    Cartesian { re: mag.mixed_mul(real_s), im: mag.mixed_mul(imag_s) }
}

/// Divide a Cartesian complex number by a real scalar.
/// `c = a / b`
///
/// Division by a zero scalar saturates both result components to the
/// representation's maximum value instead of signalling an error.
pub fn div_scalar_cartesian<T: MixedNum + MixedNumSigned + MixedOps>(
    a: Cartesian<T>,
    b: T,
) -> (c: Cartesian<T>)
    ensures
        b.val() == 0 ==> c.re.val() == T::max_val_spec() && c.im.val() == T::max_val_spec(),
        b.val() != 0 ==> c.re.val() == div_val::<T>(a.re.val(), b.val()) && c.im.val()
            == div_val::<T>(a.im.val(), b.val()),
{
    proof {
        T::law_model();
        T::law_from_i64(0i64);
    }
    let zero: T = T::mixed_from_num(0i64);
    let mut c = a;
    if b.mixed_eq(&zero) {
        c.re = T::mixed_max_value();
        c.im = T::mixed_max_value();
    } else {
        c.re = a.re.mixed_div(b);
        c.im = a.im.mixed_div(b);
    }
    c
}

/// Divide two Cartesian complex numbers:
/// `(a + bi)/(c + di) = ((ac + bd) + (bc - ad)i) / (c^2 + d^2)`.
///
/// A zero-magnitude divisor saturates both result components to the
/// representation's maximum value instead of signalling an error.
pub fn div_cartesian<T: MixedNum + MixedNumSigned + MixedOps + MixedPowi>(
    numerator: Cartesian<T>,
    denominator: Cartesian<T>,
) -> (r: Cartesian<T>)
    ensures
        abs2_val::<T>(denominator.re.val(), denominator.im.val()) == 0 ==> r.re.val()
            == T::max_val_spec() && r.im.val() == T::max_val_spec(),
        abs2_val::<T>(denominator.re.val(), denominator.im.val()) != 0 ==> r.re.val()
            == div_val::<T>(
            add_val::<T>(
                mul_val::<T>(numerator.re.val(), denominator.re.val()),
                mul_val::<T>(numerator.im.val(), denominator.im.val()),
            ),
            abs2_val::<T>(denominator.re.val(), denominator.im.val()),
        ) && r.im.val() == div_val::<T>(
            sub_val::<T>(
                mul_val::<T>(numerator.im.val(), denominator.re.val()),
                mul_val::<T>(numerator.re.val(), denominator.im.val()),
            ),
            abs2_val::<T>(denominator.re.val(), denominator.im.val()),
        ),
{
    proof {
        T::law_model();
        T::law_from_i64(0i64);
    }
    let a: T = numerator.re;
    let b: T = numerator.im;
    let c: T = denominator.re;
    let d: T = denominator.im;

    let denom: T = c.mixed_powi(2).mixed_add(d.mixed_powi(2));
    let zero: T = T::mixed_from_num(0i64);
    if denom.mixed_eq(&zero) {
        Cartesian { re: T::mixed_max_value(), im: T::mixed_max_value() }
    } else {
        let re: T = a.mixed_mul(c).mixed_add(b.mixed_mul(d)).mixed_div(denom);
        let im: T = b.mixed_mul(c).mixed_sub(a.mixed_mul(d)).mixed_div(denom);
        Cartesian { re: re, im: im }
    }
}

/// Multiplying a Cartesian value by the complex one is the identity on
/// both components: scaling a mantissa by the scale and rescaling
/// truncates nothing.
pub proof fn lemma_mul_val_one<T: MixedVal>(v: int)
    requires
        T::min_val_spec() <= v <= T::max_val_spec(),
    ensures
        mul_val::<T>(v, T::den_spec()) == v,
{
    T::law_model();
    let den = T::den_spec();
    assert(crate::traits::abs_i(v * den) == crate::traits::abs_i(v) * den) by (nonlinear_arith)
        requires
            0 < den,
    ;
    assert((crate::traits::abs_i(v) * den) / den == crate::traits::abs_i(v)) by {
        vstd::arithmetic::div_mod::lemma_div_multiples_vanish(crate::traits::abs_i(v), den);
        assert(crate::traits::abs_i(v) * den == den * crate::traits::abs_i(v)) by (nonlinear_arith);
    };
    assert((v * den < 0) == (v < 0)) by (nonlinear_arith)
        requires
            0 < den,
    ;
}

/// Multiplicative identity of the Cartesian product: multiplying any
/// Cartesian value by `1 + 0i` leaves both components unchanged.
pub proof fn lemma_mul_cartesian_one<T: MixedNum + MixedNumSigned + MixedOps>(
    c: Cartesian<T>,
    one: Cartesian<T>,
)
    requires
        one.re.val() == T::den_spec(),
        one.im.val() == 0,
    ensures
        sub_val::<T>(
            mul_val::<T>(c.re.val(), one.re.val()),
            mul_val::<T>(c.im.val(), one.im.val()),
        ) == c.re.val(),
        add_val::<T>(
            mul_val::<T>(c.re.val(), one.im.val()),
            mul_val::<T>(c.im.val(), one.re.val()),
        ) == c.im.val(),
{
    T::law_model();
    c.re.law_val_in_range();
    c.im.law_val_in_range();
    lemma_mul_val_one::<T>(c.re.val());
    lemma_mul_val_one::<T>(c.im.val());
    assert(c.re.val() * 0 == 0) by (nonlinear_arith);
    assert(c.im.val() * 0 == 0) by (nonlinear_arith);
    assert(crate::traits::tdiv(0, T::den_spec()) == 0);
}

} // verus!
