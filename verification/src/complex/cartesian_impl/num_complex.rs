//! Interoperability with the num crate's complex type: Cartesian
//! arithmetic accepts a `num::Complex` operand by reading its two
//! components.  This is a one-directional adapter, not a dependency of the
//! algebra.

use vstd::prelude::*;

use crate::complex::Cartesian;
use crate::complex::ops;
use crate::complex::ops::abs2_val;
use crate::traits::MixedNum;
use crate::traits::MixedNumSigned;
use crate::traits::MixedVal;
use crate::traits::add_val;
use crate::traits::div_val;
use crate::traits::mul_val;
use crate::traits::sub_val;
use crate::traits::math_traits::MixedOps;
use crate::traits::math_traits::MixedPowi;

verus! {

/// Relies on num_complex::Complex being a plain pair of public fields
/// `re` and `im`; the declaration makes those fields visible to the
/// contracts, and everything below is verified ordinary code over them.
#[verifier::external_type_specification]
pub struct ExComplex<T>(num::Complex<T>);

impl<T: MixedNum + MixedOps> Cartesian<T> {
    /// Read a `num::Complex` into the library's Cartesian form.
    pub fn from_num_complex(c: num::Complex<T>) -> (r: Self)
        ensures
            r.re == c.re,
            r.im == c.im,
    {
        Cartesian { re: c.re, im: c.im }
    }

    /// Add a `num::Complex` operand, component-wise.
    pub fn add_complex(self, rhs: num::Complex<T>) -> (r: Self)
        ensures
            r.re.val() == add_val::<T>(self.re.val(), rhs.re.val()),
            r.im.val() == add_val::<T>(self.im.val(), rhs.im.val()),
    {
        ops::add(self, Cartesian { re: rhs.re, im: rhs.im })
    }
}

impl<T: MixedNum + MixedNumSigned + MixedOps> Cartesian<T> {
    /// Subtract a `num::Complex` operand, component-wise.
    pub fn sub_complex(self, rhs: num::Complex<T>) -> (r: Self)
        ensures
            r.re.val() == sub_val::<T>(self.re.val(), rhs.re.val()),
            r.im.val() == sub_val::<T>(self.im.val(), rhs.im.val()),
    {
        ops::sub(self, Cartesian { re: rhs.re, im: rhs.im })
    }
}

impl<T: MixedNum + MixedNumSigned + MixedOps + MixedPowi> Cartesian<T> {
    /// Divide by a `num::Complex` operand, with the same zero-magnitude
    /// saturation policy as the Cartesian division.
    pub fn div_complex(self, rhs: num::Complex<T>) -> (r: Self)
        ensures
            abs2_val::<T>(rhs.re.val(), rhs.im.val()) == 0 ==> r.re.val() == T::max_val_spec()
                && r.im.val() == T::max_val_spec(),
            abs2_val::<T>(rhs.re.val(), rhs.im.val()) != 0 ==> r.re.val() == div_val::<T>(
                add_val::<T>(
                    mul_val::<T>(self.re.val(), rhs.re.val()),
                    mul_val::<T>(self.im.val(), rhs.im.val()),
                ),
                abs2_val::<T>(rhs.re.val(), rhs.im.val()),
            ) && r.im.val() == div_val::<T>(
                sub_val::<T>(
                    mul_val::<T>(self.im.val(), rhs.re.val()),
                    mul_val::<T>(self.re.val(), rhs.im.val()),
                ),
                abs2_val::<T>(rhs.re.val(), rhs.im.val()),
            ),
    {
        ops::div_cartesian(self, Cartesian { re: rhs.re, im: rhs.im })
    }
}

} // verus!
