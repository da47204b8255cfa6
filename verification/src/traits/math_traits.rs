//! Mathematical capability contracts.
//!
//! Scalar-only capabilities (arithmetic, powers, phase wrapping) are stated
//! exactly against the scaled-integer model.  Function capabilities whose
//! result depends on the concrete approximation backing the type (sine,
//! arctangent, square root, ...) are stated through per-implementation spec
//! functions: each implementation pins its method to a definite value, and
//! concrete callers reason from that definition.

use vstd::prelude::*;

use crate::traits::MixedVal;
use crate::traits::MixedNum;
use crate::traits::MixedPi;
use crate::traits::add_val;
use crate::traits::sub_val;
use crate::traits::mul_val;
use crate::traits::div_val;

verus! {

/// Mantissa of the left-associated power `v^n` computed by repeated
/// truncating multiplication; `n == 0` gives the multiplicative identity.
pub open spec fn powi_val<T: MixedVal>(v: int, n: nat) -> int
    decreases n,
{
    if n == 0 {
        T::den_spec()
    } else if n == 1 {
        v
    } else {
        mul_val::<T>(powi_val::<T>(v, (n - 1) as nat), v)
    }
}

/// Mantissa of the canonical representative of `v` modulo tau in
/// `[-pi, pi)`.
pub open spec fn wrap_val<T: MixedPi>(v: int) -> int {
    (v + T::pi_val()) % (2 * T::pi_val()) - T::pi_val()
}

/// Arithmetic operator capability: saturating, truncating fixed-point
/// arithmetic over the scaled-integer model.
pub trait MixedOps: MixedNum {
    fn mixed_add(self, rhs: Self) -> (r: Self)
        ensures
            r.val() == add_val::<Self>(self.val(), rhs.val()),
    ;

    fn mixed_sub(self, rhs: Self) -> (r: Self)
        ensures
            r.val() == sub_val::<Self>(self.val(), rhs.val()),
    ;

    fn mixed_mul(self, rhs: Self) -> (r: Self)
        ensures
            r.val() == mul_val::<Self>(self.val(), rhs.val()),
    ;

    fn mixed_div(self, rhs: Self) -> (r: Self)
        requires
            rhs.val() != 0,
        ensures
            r.val() == div_val::<Self>(self.val(), rhs.val()),
    ;
}

/// Absolute value capability; also implemented by the complex forms, so its
/// contract is stated per implementation.
pub trait MixedAbs: Sized {
    /// The absolute value of `self`.
    spec fn abs_spec(&self) -> Self;

    /// Absolute value.
    fn mixed_abs(&self) -> (r: Self)
        ensures
            r == self.abs_spec(),
    ;
}

/// Integer valued power by repeated multiplication.
pub trait MixedPowi: MixedVal {
    /// Integer valued power.
    fn mixed_powi(&self, exp: i32) -> (r: Self)
        requires
            0 <= exp,
        ensures
            r.val() == powi_val::<Self>(self.val(), exp as nat),
    ;
}

/// Phase wrapping capability: reduce an angle to the `[-pi, pi)` range.
pub trait MixedWrapPhase: MixedPi {
    /// Wraps `self` to the -pi <= x < pi range.
    fn mixed_wrap_phase(&self) -> (r: Self)
        ensures
            r.val() == wrap_val::<Self>(self.val()),
    ;
}

/// Tangent capability.  Implementation varies with type.
pub trait MixedTan: Sized {
    /// The tangent of `self` in this representation.
    spec fn tan_spec(&self) -> Self;

    /// Take the tan of `self`.
    fn mixed_tan(&self) -> (r: Self)
        ensures
            r == self.tan_spec(),
    ;
}

/// Hyperbolic tangent capability.  Implementation varies with type.
pub trait MixedTanh: Sized {
    /// The hyperbolic tangent of `self` in this representation.
    spec fn tanh_spec(&self) -> Self;

    /// The inverse hyperbolic tangent of `self` in this representation.
    spec fn atanh_spec(&self) -> Self;

    /// Take the hyperbolic tangent (tanh) of `self`.
    fn mixed_tanh(&self) -> (r: Self)
        ensures
            r == self.tanh_spec(),
    ;

    /// Take the inverse hyperbolic tangent (atanh) of `self`.
    fn mixed_atanh(&self) -> (r: Self)
        ensures
            r == self.atanh_spec(),
    ;
}

/// Arctangent capability.  Implementation varies with type.
pub trait MixedAtan: Sized {
    /// The arctangent of `self` in this representation.
    spec fn atan_spec(&self) -> Self;

    /// The two-argument arctangent of `self / other` in this representation.
    spec fn atan2_spec(&self, other: Self) -> Self;

    /// The octant-polynomial two-argument arctangent of `self / other`.
    spec fn atan2_poly_spec(&self, other: Self) -> Self;

    /// Take the atan of `self`.
    fn mixed_atan(&self) -> (r: Self)
        ensures
            r == self.atan_spec(),
    ;

    /// Take the atan2 of `self`/`other`.
    fn mixed_atan2(&self, other: Self) -> (r: Self)
        ensures
            r == self.atan2_spec(other),
    ;

    /// Calculate atan2(y,x) using a selection of polynomial approximations,
    /// one for each octant in the unit circle.
    fn mixed_atan2_poly(&self, other: Self) -> (r: Self)
        ensures
            r == self.atan2_poly_spec(other),
    ;
}

/// Sine capability.  Implementation varies with type.
pub trait MixedSin: Sized {
    /// The sine of `self` in this representation.
    spec fn sin_spec(&self) -> Self;

    /// The sine and cosine of `self` in this representation.
    spec fn sincos_spec(&self) -> (Self, Self);

    /// The arcsine of `self` in this representation.
    spec fn asin_spec(&self) -> Self;

    /// Take the sin of `self`.
    fn mixed_sin(&self) -> (r: Self)
        ensures
            r == self.sin_spec(),
    ;

    /// Calculate the sin and cos of `self`.
    fn mixed_sincos(&self) -> (r: (Self, Self))
        ensures
            r == self.sincos_spec(),
    ;

    /// Take the arcsin of `self`.
    fn mixed_asin(&self) -> (r: Self)
        ensures
            r == self.asin_spec(),
    ;
}

/// Hyperbolic sine capability.  Implementation varies with type.
pub trait MixedSinh: Sized {
    /// The hyperbolic sine of `self` in this representation.
    spec fn sinh_spec(&self) -> Self;

    /// The inverse hyperbolic sine of `self` in this representation.
    spec fn asinh_spec(&self) -> Self;

    /// Take the hyperbolic sin of `self`.
    fn mixed_sinh(&self) -> (r: Self)
        ensures
            r == self.sinh_spec(),
    ;

    /// Take the inverse hyperbolic sin of `self`.
    fn mixed_asinh(&self) -> (r: Self)
        ensures
            r == self.asinh_spec(),
    ;
}

/// Cosine capability.  Implementation varies with type.
pub trait MixedCos: Sized {
    /// The cosine of `self` in this representation.
    spec fn cos_spec(&self) -> Self;

    /// The arccosine of `self` in this representation.
    spec fn acos_spec(&self) -> Self;

    /// Take the cos of `self`.
    fn mixed_cos(&self) -> (r: Self)
        ensures
            r == self.cos_spec(),
    ;

    /// Take the arccos of `self`.
    fn mixed_acos(&self) -> (r: Self)
        ensures
            r == self.acos_spec(),
    ;
}

/// Hyperbolic cosine capability.  Implementation varies with type.
pub trait MixedCosh: Sized {
    /// The hyperbolic cosine of `self` in this representation.
    spec fn cosh_spec(&self) -> Self;

    /// The inverse hyperbolic cosine of `self` in this representation.
    spec fn acosh_spec(&self) -> Self;

    /// Take the cosh of `self`.
    fn mixed_cosh(&self) -> (r: Self)
        ensures
            r == self.cosh_spec(),
    ;

    /// Take the arccosh of `self`.
    fn mixed_acosh(&self) -> (r: Self)
        ensures
            r == self.acosh_spec(),
    ;
}

/// Combined trigonometric capability bundle.
pub trait MixedTrigonometry: MixedSin + MixedCos + MixedAtan {
}

/// Exponential (base e) capability.  Implementation varies with type.
pub trait MixedExp: Sized {
    /// The exponential of `self` in this representation.
    spec fn exp_spec(&self) -> Self;

    /// Take the exponential, base e, of `self`.
    fn mixed_exp(&self) -> (r: Self)
        ensures
            r == self.exp_spec(),
    ;
}

/// Square root capability.  Implementation varies with type.
pub trait MixedSqrt: Sized {
    /// The square root of `self` in this representation.
    spec fn sqrt_spec(&self) -> Self;

    /// The NIIRF square-root estimate of `self` in this representation.
    spec fn niirf_spec(&self) -> Self;

    /// The generic square root implementation for the `MixedSqrt` trait.
    fn mixed_sqrt(&self) -> (r: Self)
        ensures
            r == self.sqrt_spec(),
    ;

    /// A fast implementation of the square root using the Nonlinear IIR
    /// Filter (NIIRF) method.
    ///
    /// Only valid for positive values of `self`; negative values are forced
    /// positive before estimation.
    fn mixed_niirf(&self) -> (r: Self)
        ensures
            r == self.niirf_spec(),
    ;
}

/// Cube root capability.  Implementation varies with type.
pub trait MixedCbrt: Sized {
    /// The cube root of `self` in this representation.
    spec fn cbrt_spec(&self) -> Self;

    /// Take the cube root of `self`.
    fn mixed_cbrt(&self) -> (r: Self)
        ensures
            r == self.cbrt_spec(),
    ;
}

/// Exponential (base 10) capability.  Implementation varies with type.
pub trait MixedExp10: Sized {
    /// The base-10 exponential of `self` in this representation.
    spec fn exp10_spec(&self) -> Self;

    /// Take the exponential, base 10, of `self`.
    fn mixed_exp10(&self) -> (r: Self)
        ensures
            r == self.exp10_spec(),
    ;
}

/// Exponential (base 2) capability.  Implementation varies with type.
pub trait MixedExp2: Sized {
    /// The base-2 exponential of `self` in this representation.
    spec fn exp2_spec(&self) -> Self;

    /// Take the exponential, base 2, of `self`.
    fn mixed_exp2(&self) -> (r: Self)
        ensures
            r == self.exp2_spec(),
    ;
}

/// Real-valued power capability.  Implementation varies with type.
pub trait MixedPow: Sized {
    /// `self` raised to `power` in this representation.
    spec fn pow_spec(&self, power: Self) -> Self;

    /// Raise `self` to the power `power`.
    fn mixed_pow(&self, power: Self) -> (r: Self)
        ensures
            r == self.pow_spec(power),
    ;
}

/// Natural logarithm capability.  Implementation varies with type.
pub trait Mixedlog: Sized {
    /// The natural logarithm of `self` in this representation.
    spec fn log_spec(&self) -> Self;

    /// Take the natural logarithm of `self`.
    fn mixed_log(&self) -> (r: Self)
        ensures
            r == self.log_spec(),
    ;
}

/// Base-10 logarithm capability.  Implementation varies with type.
pub trait Mixedlog10: Sized {
    /// The base-10 logarithm of `self` in this representation.
    spec fn log10_spec(&self) -> Self;

    /// Take the base-10 logarithm of `self`.
    fn mixed_log10(&self) -> (r: Self)
        ensures
            r == self.log10_spec(),
    ;
}

/// Base-2 logarithm capability.  Implementation varies with type.
pub trait Mixedlog2: Sized {
    /// The base-2 logarithm of `self` in this representation.
    spec fn log2_spec(&self) -> Self;

    /// Take the base-2 logarithm of `self`.
    fn mixed_log2(&self) -> (r: Self)
        ensures
            r == self.log2_spec(),
    ;
}

/// Conversion between linear-scale magnitude and Decibel (dB).
pub trait DbMag: Sized {
    /// `self` as a magnitude, converted to dB, in this representation.
    spec fn mag2db_spec(&self) -> Self;

    /// `self` as dB, converted to a linear-scale magnitude.
    spec fn db2mag_spec(&self) -> Self;

    /// Convert between magnitude in linear scale and Decibel (dB).
    fn mixed_mag2db(&self) -> (r: Self)
        ensures
            r == self.mag2db_spec(),
    ;

    /// Convert between Decibel (dB) and linear scale magnitude.
    fn mixed_db2mag(&self) -> (r: Self)
        ensures
            r == self.db2mag_spec(),
    ;
}

/// Conversion between linear-scale power and Decibel (dB).
pub trait DbPow: Sized {
    /// `self` as a power, converted to dB, in this representation.
    spec fn pow2db_spec(&self) -> Self;

    /// `self` as dB, converted to a linear-scale power.
    spec fn db2pow_spec(&self) -> Self;

    /// Convert between power in linear scale and Decibel (dB).
    fn mixed_pow2db(&self) -> (r: Self)
        ensures
            r == self.pow2db_spec(),
    ;

    /// Convert between Decibel (dB) and linear scale power.
    fn mixed_db2pow(&self) -> (r: Self)
        ensures
            r == self.db2pow_spec(),
    ;
}

} // verus!
