//! Capability implementations of the Cartesian form.

use vstd::prelude::*;

pub mod num_complex;

use crate::complex::Cartesian;
use crate::complex::Polar;
use crate::complex::ops;
use crate::complex::ops::cartesian_mag_spec;
use crate::complex::ops::polar_sincos_spec;
use crate::traits::MixedNum;
use crate::traits::MixedNumConversion;
use crate::traits::MixedNumSigned;
use crate::traits::MixedOne;
use crate::traits::MixedVal;
use crate::traits::MixedZero;
use crate::traits::div_val;
use crate::traits::mul_val;
use crate::traits::neg_val;
use crate::traits::sub_val;
use crate::traits::add_val;
use crate::traits::complex_traits::Arg;
use crate::traits::complex_traits::Conj;
use crate::traits::complex_traits::Mag;
use crate::traits::complex_traits::MixedComplexConversion;
use crate::traits::complex_traits::NewFromCartesian;
use crate::traits::complex_traits::NewFromPolar;
use crate::traits::complex_traits::ToCartesian;
use crate::traits::complex_traits::ToPolar;
use crate::traits::math_traits::MixedAbs;
use crate::traits::math_traits::MixedAtan;
use crate::traits::math_traits::MixedOps;
use crate::traits::math_traits::MixedPowi;
use crate::traits::math_traits::MixedSqrt;
use crate::traits::math_traits::MixedTrigonometry;
use crate::traits::math_traits::MixedWrapPhase;

verus! {

impl<T> Cartesian<T> {
    /// Create a complex number from its real and imaginary parts.
    pub fn new(re: T, im: T) -> (r: Self)
        ensures
            r.re == re,
            r.im == im,
    {
        Cartesian { re: re, im: im }
    }
}

impl<T: MixedNum + MixedNumSigned> NewFromCartesian<T> for Cartesian<T> {
    open spec fn from_cartesian_spec(re: T, im: T) -> Self {
        Cartesian { re: re, im: im }
    }

    /// Create a Cartesian complex number directly from its coordinates.
    fn new_from_cartesian(re: T, im: T) -> (r: Self) {
        Cartesian { re: re, im: im }
    }
}

impl<T: MixedNum + MixedNumSigned + MixedWrapPhase + MixedTrigonometry + MixedOps> NewFromPolar<
    T,
> for Cartesian<T> {
    open spec fn from_polar_spec(mag: T, ang: T) -> Self {
        Cartesian {
            re: T::from_val(mul_val::<T>(mag.val(), polar_sincos_spec::<T>(ang.val()).1.val())),
            im: T::from_val(mul_val::<T>(mag.val(), polar_sincos_spec::<T>(ang.val()).0.val())),
        }
    }

    /// Create a Cartesian complex number from polar coordinates.
    fn new_from_polar(mag: T, ang: T) -> (r: Self) {
        let r = ops::to_cartesian(Polar::new(mag, ang));
        proof {
            r.re.law_from_val_of();
            r.im.law_from_val_of();
        }
        r
    }
}

impl<T: MixedNum + MixedNumConversion<T2> + MixedZero, T2> MixedNumConversion<T2> for Cartesian<
    T,
> {
    open spec fn from_num_spec(number: T2) -> Self {
        Cartesian { re: T::from_num_spec(number), im: T::zero_spec() }
    }

    open spec fn to_num_spec(&self) -> T2 {
        self.re.to_num_spec()
    }

    /// Cast a real number onto the real axis.
    fn mixed_from_num(number: T2) -> (r: Self) {
        Cartesian { re: T::mixed_from_num(number), im: T::mixed_zero() }
    }

    /// Cast to a real number, keeping only the real part.
    fn mixed_to_num(&self) -> (r: T2) {
        self.re.mixed_to_num()
    }
}

impl<T: MixedNum + MixedNumSigned> ToCartesian<T> for Cartesian<T> {
    open spec fn to_cartesian_spec(&self) -> Cartesian<T> {
        *self
    }

    /// Conversion to Cartesian form: the identity.
    fn to_cartesian(&self) -> (r: Cartesian<T>) {
        *self
    }
}

impl<T: MixedNum + MixedNumSigned + MixedSqrt + MixedOps + MixedAbs + MixedPowi + MixedAtan> ToPolar<
    T,
> for Cartesian<T> {
    open spec fn to_polar_spec(&self) -> Polar<T> {
        Polar { mag: cartesian_mag_spec::<T>(self.re.val(), self.im.val()), ang: self.im.atan2_spec(self.re) }
    }

    /// Conversion to polar form.
    fn to_polar(&self) -> (r: Polar<T>) {
        ops::to_polar(*self)
    }
}

impl<T: MixedNum + MixedZero> MixedZero for Cartesian<T> {
    open spec fn zero_spec() -> Self {
        Cartesian { re: T::zero_spec(), im: T::zero_spec() }
    }

    /// Return the zero value: both components zero.
    fn mixed_zero() -> (r: Self) {
        Cartesian { re: T::mixed_zero(), im: T::mixed_zero() }
    }
}

impl<T: MixedNum + MixedZero + MixedOne> MixedOne for Cartesian<T> {
    open spec fn one_spec() -> Self {
        Cartesian { re: T::one_spec(), im: T::zero_spec() }
    }

    /// Return the one value: real part one, imaginary part zero.
    fn mixed_one() -> (r: Self) {
        Cartesian { re: T::mixed_one(), im: T::mixed_zero() }
    }
}

impl<T: MixedNum + MixedZero> MixedComplexConversion<T> for Cartesian<T> {
    open spec fn to_complex_spec(number: T) -> Self {
        Cartesian { re: number, im: T::zero_spec() }
    }

    /// Type cast from the real number `number` onto the real axis.
    fn mixed_to_complex(number: T) -> (r: Self) {
        Cartesian { re: number, im: T::mixed_zero() }
    }
}

impl<T: MixedNum + MixedNumSigned + MixedSqrt + MixedPowi + MixedOps> Mag<T> for Cartesian<T> {
    open spec fn mag_spec(&self) -> T {
        cartesian_mag_spec::<T>(self.re.val(), self.im.val())
    }

    /// Magnitude of the complex number.
    fn mag(&self) -> (r: T) {
        ops::abs(*self)
    }

    /// Magnitude of the complex number.
    fn abs(&self) -> (r: T) {
        ops::abs(*self)
    }
}

impl<T: MixedNum + MixedNumSigned + MixedSqrt + MixedPowi + MixedOps + MixedZero> MixedAbs for Cartesian<
    T,
> {
    open spec fn abs_spec(&self) -> Self {
        Cartesian { re: cartesian_mag_spec::<T>(self.re.val(), self.im.val()), im: T::zero_spec() }
    }

    /// Absolute value: the magnitude on the real axis.
    fn mixed_abs(&self) -> (r: Self) {
        Cartesian { re: ops::abs(*self), im: T::mixed_zero() }
    }
}

impl<T: MixedNum + MixedNumSigned + MixedAtan> Arg<T> for Cartesian<T> {
    open spec fn arg_spec(&self) -> T {
        self.im.atan2_spec(self.re)
    }

    /// Argument of the complex number: `atan2(im, re)`.
    fn arg(&self) -> (r: T) {
        self.im.mixed_atan2(self.re)
    }

    /// Angle of the complex number.
    fn ang(&self) -> (r: T) {
        self.im.mixed_atan2(self.re)
    }
}

impl<C: NewFromCartesian<T>, T: MixedNum + MixedNumSigned> Conj<C> for Cartesian<T> {
    open spec fn conj_spec(&self) -> C {
        C::from_cartesian_spec(self.re, T::from_val(neg_val::<T>(self.im.val())))
    }

    /// Complex conjugate: the sign of the imaginary part flipped.
    fn conj(&self) -> (r: C) {
        let ni: T = self.im.mixed_neg();
        proof {
            ni.law_from_val_of();
        }
        C::new_from_cartesian(self.re, ni)
    }
}

impl<T: MixedNum + MixedNumSigned + MixedOps> Cartesian<T> {
    /// Multiply by a Cartesian complex number.
    pub fn mul(self, rhs: Cartesian<T>) -> (r: Self)
        ensures
            r.re.val() == sub_val::<T>(
                mul_val::<T>(self.re.val(), rhs.re.val()),
                mul_val::<T>(self.im.val(), rhs.im.val()),
            ),
            r.im.val() == add_val::<T>(
                mul_val::<T>(self.re.val(), rhs.im.val()),
                mul_val::<T>(self.im.val(), rhs.re.val()),
            ),
    {
        ops::mul_cartesian(self, rhs)
    }

    /// Multiply by a polar complex number, which is converted to Cartesian
    /// form first.
    pub fn mul_polar(self, rhs: Polar<T>) -> (r: Self) where
        T: MixedWrapPhase + MixedTrigonometry
        ensures
            r.re.val() == sub_val::<T>(
                mul_val::<T>(
                    self.re.val(),
                    mul_val::<T>(rhs.mag.val(), polar_sincos_spec::<T>(rhs.ang.val()).1.val()),
                ),
                mul_val::<T>(
                    self.im.val(),
                    mul_val::<T>(rhs.mag.val(), polar_sincos_spec::<T>(rhs.ang.val()).0.val()),
                ),
            ),
            r.im.val() == add_val::<T>(
                mul_val::<T>(
                    self.re.val(),
                    mul_val::<T>(rhs.mag.val(), polar_sincos_spec::<T>(rhs.ang.val()).0.val()),
                ),
                mul_val::<T>(
                    self.im.val(),
                    mul_val::<T>(rhs.mag.val(), polar_sincos_spec::<T>(rhs.ang.val()).1.val()),
                ),
            ),
    {
        let rhs_cartesian = ops::to_cartesian(rhs);
        ops::mul_cartesian(self, rhs_cartesian)
    }

    /// Add a Cartesian complex number, component-wise.
    pub fn add(self, rhs: Cartesian<T>) -> (r: Self)
        ensures
            r.re.val() == add_val::<T>(self.re.val(), rhs.re.val()),
            r.im.val() == add_val::<T>(self.im.val(), rhs.im.val()),
    {
        ops::add(self, rhs)
    }

    /// Add a Cartesian complex number in place.
    pub fn add_assign(&mut self, rhs: Cartesian<T>)
        ensures
            final(self).re.val() == add_val::<T>(old(self).re.val(), rhs.re.val()),
            final(self).im.val() == add_val::<T>(old(self).im.val(), rhs.im.val()),
    {
        let t = ops::add(*self, rhs);
        self.re = t.re;
        self.im = t.im;
    }

    /// Subtract a Cartesian complex number, component-wise.
    pub fn sub(self, rhs: Cartesian<T>) -> (r: Self)
        ensures
            r.re.val() == sub_val::<T>(self.re.val(), rhs.re.val()),
            r.im.val() == sub_val::<T>(self.im.val(), rhs.im.val()),
    {
        ops::sub(self, rhs)
    }

    /// Subtract a Cartesian complex number in place.
    pub fn sub_assign(&mut self, rhs: Cartesian<T>)
        ensures
            final(self).re.val() == sub_val::<T>(old(self).re.val(), rhs.re.val()),
            final(self).im.val() == sub_val::<T>(old(self).im.val(), rhs.im.val()),
    {
        let t = ops::sub(*self, rhs);
        self.re = t.re;
        self.im = t.im;
    }

    /// Divide by a real scalar of the same representation, saturating both
    /// components at the maximum value when the scalar is zero.
    pub fn div(self, rhs: T) -> (r: Self)
        ensures
            rhs.val() == 0 ==> r.re.val() == T::max_val_spec() && r.im.val()
                == T::max_val_spec(),
            rhs.val() != 0 ==> r.re.val() == div_val::<T>(self.re.val(), rhs.val())
                && r.im.val() == div_val::<T>(self.im.val(), rhs.val()),
    {
        ops::div_scalar_cartesian(self, rhs)
    }

    /// Divide by a real scalar in place, saturating both components at the
    /// maximum value when the scalar is zero.
    pub fn div_assign(&mut self, rhs: T)
        ensures
            rhs.val() == 0 ==> final(self).re.val() == T::max_val_spec() && final(self).im.val()
                == T::max_val_spec(),
            rhs.val() != 0 ==> final(self).re.val() == div_val::<T>(old(self).re.val(), rhs.val())
                && final(self).im.val() == div_val::<T>(old(self).im.val(), rhs.val()),
    {
        let t = ops::div_scalar_cartesian(*self, rhs);
        self.re = t.re;
        self.im = t.im;
    }
}

impl<T2: MixedNum + MixedNumSigned + MixedOps> Cartesian<T2> {
    /// Scale by a raw scalar of a possibly different representation `T1`,
    /// which is converted into `T2` before the multiplication.
    pub fn mul_scalar<T1>(self, rhs: T1) -> (r: Self) where T2: MixedNumConversion<T1>
        ensures
            r.re.val() == mul_val::<T2>(
                self.re.val(),
                (<T2 as MixedNumConversion<T1>>::from_num_spec(rhs)).val(),
            ),
            r.im.val() == mul_val::<T2>(
                self.im.val(),
                (<T2 as MixedNumConversion<T1>>::from_num_spec(rhs)).val(),
            ),
    {
        let s: T2 = T2::mixed_from_num(rhs);
        Cartesian { re: self.re.mixed_mul(s), im: self.im.mixed_mul(s) }
    }

    /// Add a raw scalar of a possibly different representation `T1` to the
    /// real part, converting it into `T2` first.
    pub fn add_scalar<T1>(self, rhs: T1) -> (r: Self) where T2: MixedNumConversion<T1>
        ensures
            r.re.val() == add_val::<T2>(
                self.re.val(),
                (<T2 as MixedNumConversion<T1>>::from_num_spec(rhs)).val(),
            ),
            r.im == self.im,
    {
        let s: T2 = T2::mixed_from_num(rhs);
        Cartesian { re: self.re.mixed_add(s), im: self.im }
    }

    /// Subtract a raw scalar of a possibly different representation `T1`
    /// from the real part, converting it into `T2` first.
    pub fn sub_scalar<T1>(self, rhs: T1) -> (r: Self) where T2: MixedNumConversion<T1>
        ensures
            r.re.val() == sub_val::<T2>(
                self.re.val(),
                (<T2 as MixedNumConversion<T1>>::from_num_spec(rhs)).val(),
            ),
            r.im == self.im,
    {
        let s: T2 = T2::mixed_from_num(rhs);
        Cartesian { re: self.re.mixed_sub(s), im: self.im }
    }

    /// Divide by a raw scalar of a possibly different representation `T1`,
    /// converting it into `T2` first.  If the converted scalar is zero the
    /// result saturates both components at the maximum value.
    pub fn div_scalar<T1>(self, rhs: T1) -> (r: Self) where T2: MixedNumConversion<T1>
        ensures
            (<T2 as MixedNumConversion<T1>>::from_num_spec(rhs)).val() == 0 ==> r.re.val()
                == T2::max_val_spec() && r.im.val() == T2::max_val_spec(),
            (<T2 as MixedNumConversion<T1>>::from_num_spec(rhs)).val() != 0 ==> r.re.val()
                == div_val::<T2>(
                self.re.val(),
                (<T2 as MixedNumConversion<T1>>::from_num_spec(rhs)).val(),
            ) && r.im.val() == div_val::<T2>(
                self.im.val(),
                (<T2 as MixedNumConversion<T1>>::from_num_spec(rhs)).val(),
            ),
    {
        let s: T2 = T2::mixed_from_num(rhs);
        ops::div_scalar_cartesian(self, s)
    }
}

/// Conjugation is an involution: flipping the sign of the imaginary part
/// twice gives back the starting value exactly, whenever the negated
/// mantissa is representable (no saturation on either flip).
pub proof fn lemma_conj_involution<T: MixedNum + MixedNumSigned>(c: Cartesian<T>)
    requires
        T::min_val_spec() <= -c.im.val() <= T::max_val_spec(),
    ensures
        <Cartesian<T> as Conj<Cartesian<T>>>::conj_spec(
            &<Cartesian<T> as Conj<Cartesian<T>>>::conj_spec(&c),
        ) == c,
{
    T::law_model();
    c.im.law_val_in_range();
    T::law_from_val(neg_val::<T>(c.im.val()));
    T::law_from_val(c.im.val());
    c.im.law_from_val_of();
}

} // verus!
