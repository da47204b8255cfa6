//! Capability implementations of the polar form.

use vstd::prelude::*;

use crate::complex::Cartesian;
use crate::complex::Polar;
use crate::complex::ops;
use crate::complex::ops::cartesian_mag_spec;
use crate::complex::ops::polar_sincos_spec;
use crate::traits::MixedNum;
use crate::traits::MixedNumConversion;
use crate::traits::MixedNumSigned;
use crate::traits::MixedOne;
use crate::traits::MixedVal;
use crate::traits::MixedZero;
use crate::traits::div_val;
use crate::traits::mul_val;
use crate::traits::neg_val;
use crate::traits::complex_traits::Arg;
use crate::traits::complex_traits::Conj;
use crate::traits::complex_traits::Mag;
use crate::traits::complex_traits::MixedComplexConversion;
use crate::traits::complex_traits::NewFromCartesian;
use crate::traits::complex_traits::NewFromPolar;
use crate::traits::complex_traits::ToCartesian;
use crate::traits::complex_traits::ToPolar;
use crate::traits::math_traits::MixedAbs;
use crate::traits::math_traits::MixedAtan;
use crate::traits::math_traits::MixedOps;
use crate::traits::math_traits::MixedPowi;
use crate::traits::math_traits::MixedSqrt;
use crate::traits::math_traits::MixedTrigonometry;
use crate::traits::math_traits::MixedWrapPhase;

verus! {

impl<T> Polar<T> {
    /// Create a polar complex number from its magnitude and angle.
    ///
    /// The angle is taken as given: direct construction does not
    /// canonicalize it into `[-pi, pi)`.
    pub fn new(mag: T, ang: T) -> (r: Self)
        ensures
            r.mag == mag,
            r.ang == ang,
    {
        Polar { mag: mag, ang: ang }
    }
}

impl<T: MixedNum + MixedNumSigned + MixedSqrt + MixedAtan + MixedPowi + MixedAbs + MixedOps> NewFromCartesian<
    T,
> for Polar<T> {
    open spec fn from_cartesian_spec(re: T, im: T) -> Self {
        Polar { mag: cartesian_mag_spec::<T>(re.val(), im.val()), ang: im.atan2_spec(re) }
    }

    /// Create a polar complex number from Cartesian coordinates.
    fn new_from_cartesian(re: T, im: T) -> (r: Self) {
        ops::to_polar(Cartesian::new(re, im))
    }
}

impl<T: MixedNum + MixedNumSigned + MixedWrapPhase + MixedTrigonometry> NewFromPolar<T> for Polar<
    T,
> {
    open spec fn from_polar_spec(mag: T, ang: T) -> Self {
        Polar { mag: mag, ang: ang }
    }

    /// Create a polar complex number directly from its coordinates.
    fn new_from_polar(mag: T, ang: T) -> (r: Self) {
        Polar::new(mag, ang)
    }
}

impl<T: MixedNum + MixedNumConversion<T2> + MixedZero, T2> MixedNumConversion<T2> for Polar<T> {
    open spec fn from_num_spec(number: T2) -> Self {
        Polar { mag: T::from_num_spec(number), ang: T::zero_spec() }
    }

    open spec fn to_num_spec(&self) -> T2 {
        self.mag.to_num_spec()
    }

    /// Cast a real number to a polar value with angle zero.
    fn mixed_from_num(number: T2) -> (r: Self) {
        Polar { mag: T::mixed_from_num(number), ang: T::mixed_zero() }
    }

    /// Cast to a real number, keeping only the magnitude.
    fn mixed_to_num(&self) -> (r: T2) {
        self.mag.mixed_to_num()
    }
}

impl<T: MixedNum + MixedNumSigned + MixedWrapPhase + MixedOps + MixedTrigonometry> ToCartesian<
    T,
> for Polar<T> {
    open spec fn to_cartesian_spec(&self) -> Cartesian<T> {
        Cartesian {
            re: T::from_val(
                mul_val::<T>(self.mag.val(), polar_sincos_spec::<T>(self.ang.val()).1.val()),
            ),
            im: T::from_val(
                mul_val::<T>(self.mag.val(), polar_sincos_spec::<T>(self.ang.val()).0.val()),
            ),
        }
    }

    /// Conversion to Cartesian form.
    fn to_cartesian(&self) -> (r: Cartesian<T>) {
        let r = ops::to_cartesian(*self);
        proof {
            r.re.law_from_val_of();
            r.im.law_from_val_of();
        }
        r
    }
}

impl<T: MixedNum + MixedNumSigned> ToPolar<T> for Polar<T> {
    open spec fn to_polar_spec(&self) -> Polar<T> {
        *self
    }

    /// Conversion to polar form: the identity.
    fn to_polar(&self) -> (r: Polar<T>) {
        *self
    }
}

impl<T: MixedNum + MixedZero> MixedZero for Polar<T> {
    open spec fn zero_spec() -> Self {
        Polar { mag: T::zero_spec(), ang: T::zero_spec() }
    }

    /// Return the zero value: zero magnitude and zero angle.
    fn mixed_zero() -> (r: Self) {
        Polar { mag: T::mixed_zero(), ang: T::mixed_zero() }
    }
}

impl<T: MixedNum + MixedZero + MixedOne> MixedOne for Polar<T> {
    open spec fn one_spec() -> Self {
        Polar { mag: T::one_spec(), ang: T::zero_spec() }
    }

    /// Return the one value: unit magnitude and zero angle.
    fn mixed_one() -> (r: Self) {
        Polar { mag: T::mixed_one(), ang: T::mixed_zero() }
    }
}

impl<T: MixedNum + MixedZero> MixedComplexConversion<T> for Polar<T> {
    open spec fn to_complex_spec(number: T) -> Self {
        Polar { mag: number, ang: T::zero_spec() }
    }

    /// Type cast from the real number `number` to a polar value with angle
    /// zero.
    fn mixed_to_complex(number: T) -> (r: Self) {
        Polar { mag: number, ang: T::mixed_zero() }
    }
}

impl<T: MixedNum + MixedNumSigned> Mag<T> for Polar<T> {
    open spec fn mag_spec(&self) -> T {
        self.mag
    }

    /// Magnitude of the complex number: stored directly.
    fn mag(&self) -> (r: T) {
        self.mag
    }

    /// Magnitude of the complex number: stored directly.
    fn abs(&self) -> (r: T) {
        self.mag
    }
}

impl<T: MixedNum + MixedNumSigned + MixedZero> MixedAbs for Polar<T> {
    open spec fn abs_spec(&self) -> Self {
        Polar { mag: self.mag, ang: T::zero_spec() }
    }

    /// Absolute value: the magnitude with angle zero.
    fn mixed_abs(&self) -> (r: Self) {
        Polar::new(self.mag, T::mixed_zero())
    }
}

impl<T: MixedNum + MixedNumSigned> Arg<T> for Polar<T> {
    open spec fn arg_spec(&self) -> T {
        self.ang
    }

    /// Argument of the complex number: stored directly.
    fn arg(&self) -> (r: T) {
        self.ang
    }

    /// Angle of the complex number: stored directly.
    fn ang(&self) -> (r: T) {
        self.ang
    }
}

impl<C: NewFromPolar<T>, T: MixedNum + MixedNumSigned> Conj<C> for Polar<T> {
    open spec fn conj_spec(&self) -> C {
        C::from_polar_spec(self.mag, T::from_val(neg_val::<T>(self.ang.val())))
    }

    /// Complex conjugate: the sign of the angle flipped.
    fn conj(&self) -> (r: C) {
        let na: T = self.ang.mixed_neg();
        proof {
            na.law_from_val_of();
        }
        C::new_from_polar(self.mag, na)
    }
}

impl<T: MixedNum + MixedNumSigned + MixedOps> Polar<T> {
    /// Multiply by a polar complex number.
    pub fn mul(self, rhs: Polar<T>) -> (r: Self)
        ensures
            (self.mag.val() == 0 || rhs.mag.val() == 0) ==> r.mag.val() == 0 && r.ang.val() == 0,
            (self.mag.val() != 0 && rhs.mag.val() != 0) ==> r.mag.val() == mul_val::<T>(
                self.mag.val(),
                rhs.mag.val(),
            ) && r.ang.val() == crate::traits::add_val::<T>(self.ang.val(), rhs.ang.val()),
    {
        ops::mul_polar(self, rhs)
    }

    /// Multiply by a Cartesian complex number, which is converted to polar
    /// form first.
    pub fn mul_cartesian(self, rhs: Cartesian<T>) -> (r: Self) where
        T: MixedSqrt + MixedAtan + MixedPowi + MixedAbs
        ensures
            (self.mag.val() == 0 || cartesian_mag_spec::<T>(rhs.re.val(), rhs.im.val()).val()
                == 0) ==> r.mag.val() == 0 && r.ang.val() == 0,
            (self.mag.val() != 0 && cartesian_mag_spec::<T>(rhs.re.val(), rhs.im.val()).val()
                != 0) ==> r.mag.val() == mul_val::<T>(
                self.mag.val(),
                cartesian_mag_spec::<T>(rhs.re.val(), rhs.im.val()).val(),
            ) && r.ang.val() == crate::traits::add_val::<T>(
                self.ang.val(),
                rhs.im.atan2_spec(rhs.re).val(),
            ),
    {
        let rhs_pol = ops::to_polar(rhs);
        ops::mul_polar(self, rhs_pol)
    }

    /// Scale the magnitude by a real scalar; the angle is kept.
    pub fn mul_scalar(self, rhs: T) -> (r: Self)
        ensures
            r.mag.val() == mul_val::<T>(self.mag.val(), rhs.val()),
            r.ang == self.ang,
    {
        Polar::new(self.mag.mixed_mul(rhs), self.ang)
    }

    /// Divide the magnitude by a real scalar; the angle is kept unless the
    /// scalar is zero, in which case both components saturate at the
    /// representation's maximum value.
    pub fn div(self, rhs: T) -> (r: Self)
        ensures
            rhs.val() == 0 ==> r.mag.val() == T::max_val_spec() && r.ang.val()
                == T::max_val_spec(),
            rhs.val() != 0 ==> r.mag.val() == div_val::<T>(self.mag.val(), rhs.val()) && r.ang
                == self.ang,
    {
        proof {
            T::law_model();
            T::law_from_i64(0i64);
        }
        let zero: T = T::mixed_from_num(0i64);
        if rhs.mixed_eq(&zero) {
            Polar::new(T::mixed_max_value(), T::mixed_max_value())
        } else {
            Polar::new(self.mag.mixed_div(rhs), self.ang)
        }
    }
}

} // verus!
