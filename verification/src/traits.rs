//! Numeric capability contracts.
//!
//! A scalar type takes part in the generic algorithms by implementing the
//! capability traits below.  Every contract is stated against the exact
//! scaled-integer model of [`MixedVal`]: a value is modelled by an integer
//! mantissa `val`, the number represented being `val / den` for a fixed
//! positive scale `den`.  Arithmetic truncates toward zero and saturates at
//! the representable range, which the spec helpers here make precise.

use vstd::prelude::*;

pub mod math_traits;
pub mod complex_traits;

verus! {

/// Clamp `x` into the closed interval `[lo, hi]`.
pub open spec fn sat_i(x: int, lo: int, hi: int) -> int {
    if x < lo {
        lo
    } else if hi < x {
        hi
    } else {
        x
    }
}

/// Magnitude of an integer.
pub open spec fn abs_i(a: int) -> int {
    if a < 0 {
        -a
    } else {
        a
    }
}

/// Truncating (round toward zero) division, the rounding used by the scalar
/// engines.  Defined through Euclidean division of the magnitudes.
pub open spec fn tdiv(a: int, b: int) -> int {
    let q = abs_i(a) / abs_i(b);
    if (a < 0) != (b < 0) {
        -q
    } else {
        q
    }
}

/// The exact scaled-integer model of a scalar representation.
///
/// `val` is the mantissa of a value, `den` the fixed positive scale, and
/// `min_val`/`max_val` the mantissa range.  `from_val` names the value with a
/// given mantissa; the laws tie it to `val` so that contracts can both read
/// and construct model values.
pub trait MixedVal: Sized + Copy {
    /// Mantissa of `self`; the number represented is `val / den`.
    spec fn val(self) -> int;

    /// Fixed positive scale of the representation.
    spec fn den_spec() -> int;

    /// Smallest representable mantissa.
    spec fn min_val_spec() -> int;

    /// Largest representable mantissa.
    spec fn max_val_spec() -> int;

    /// The value whose mantissa is `v` (meaningful for in-range `v`).
    spec fn from_val(v: int) -> Self;

    proof fn law_model()
        ensures
            1 <= Self::den_spec(),
            Self::min_val_spec() <= 0,
            Self::den_spec() <= Self::max_val_spec(),
    ;

    proof fn law_val_in_range(self)
        ensures
            Self::min_val_spec() <= self.val() <= Self::max_val_spec(),
    ;

    proof fn law_from_val(v: int)
        requires
            Self::min_val_spec() <= v <= Self::max_val_spec(),
        ensures
            Self::from_val(v).val() == v,
    ;

    proof fn law_from_val_of(self)
        ensures
            Self::from_val(self.val()) == self,
    ;
}

/// Clamp a mantissa into the representable range of `T`.
pub open spec fn sat_val<T: MixedVal>(x: int) -> int {
    sat_i(x, T::min_val_spec(), T::max_val_spec())
}

/// Mantissa of a saturating sum.
pub open spec fn add_val<T: MixedVal>(a: int, b: int) -> int {
    sat_val::<T>(a + b)
}

/// Mantissa of a saturating difference.
pub open spec fn sub_val<T: MixedVal>(a: int, b: int) -> int {
    sat_val::<T>(a - b)
}

/// Mantissa of a saturating negation.
pub open spec fn neg_val<T: MixedVal>(a: int) -> int {
    sat_val::<T>(-a)
}

/// Mantissa of a truncating, saturating product: `a * b` rescaled by `den`.
pub open spec fn mul_val<T: MixedVal>(a: int, b: int) -> int {
    sat_val::<T>(tdiv(a * b, T::den_spec()))
}

/// Mantissa of a truncating, saturating quotient: `a / b` rescaled by `den`.
pub open spec fn div_val<T: MixedVal>(a: int, b: int) -> int {
    sat_val::<T>(tdiv(a * T::den_spec(), b))
}

/// Round `self` up to the closest integer.
pub trait MixedCeil: MixedVal {
    fn mixed_ceil(&self) -> (r: Self)
        ensures
            r.val() == sat_val::<Self>(Self::den_spec() * (-((-self.val()) / Self::den_spec()))),
    ;
}

/// Round `self` down to the closest integer.
pub trait MixedFloor: MixedVal {
    fn mixed_floor(&self) -> (r: Self)
        ensures
            r.val() == sat_val::<Self>(Self::den_spec() * (self.val() / Self::den_spec())),
    ;
}

/// Generic type cast between `Self` and the numeric kind `T2`.
///
/// The conversion is lossy by design for narrowing casts; each
/// implementation pins it down through the two spec functions.
pub trait MixedNumConversion<T2>: Sized {
    /// The value of `Self` that the cast gives for `number`.
    spec fn from_num_spec(number: T2) -> Self;

    /// The value of `T2` that the cast gives for `self`.
    spec fn to_num_spec(&self) -> T2;

    /// Generic type cast from numeric type `T2`.
    fn mixed_from_num(number: T2) -> (r: Self)
        ensures
            r == Self::from_num_spec(number),
    ;

    /// Generic type cast to numeric type `T2`.
    fn mixed_to_num(&self) -> (r: T2)
        ensures
            r == self.to_num_spec(),
    ;
}

/// Additive identity capability.
pub trait MixedZero: Sized {
    /// The zero value of type `Self`.
    spec fn zero_spec() -> Self;

    /// Return the zero value of type `Self`.
    fn mixed_zero() -> (r: Self)
        ensures
            r == Self::zero_spec(),
    ;
}

/// Multiplicative identity capability.
pub trait MixedOne: Sized {
    /// The one value of type `Self`.
    spec fn one_spec() -> Self;

    /// Return the one value of type `Self`.
    fn mixed_one() -> (r: Self)
        ensures
            r == Self::one_spec(),
    ;
}

/// The constants pi and tau = 2 pi, in the representation of `Self`.
///
/// `pi_val` is the mantissa of the representation's best approximation of
/// pi; the laws bound it between 3 and 16/5, and guarantee that tau and its
/// negation are representable.
pub trait MixedPi: MixedVal {
    /// Mantissa of the representation's approximation of pi.
    spec fn pi_val() -> int;

    proof fn law_pi()
        ensures
            3 * Self::den_spec() < Self::pi_val(),
            5 * Self::pi_val() < 16 * Self::den_spec(),
            2 * Self::pi_val() <= Self::max_val_spec(),
            Self::min_val_spec() <= -2 * Self::pi_val(),
    ;

    /// The pi constant, 3.141...
    fn mixed_pi() -> (r: Self)
        ensures
            r.val() == Self::pi_val(),
    ;

    /// The tau constant, 2 pi.
    fn mixed_tau() -> (r: Self)
        ensures
            r.val() == 2 * Self::pi_val(),
    ;
}

/// Identity and constant capability bundle.
pub trait MixedConsts: MixedPi + MixedZero + MixedOne {
}

/// The base capability of a mixed-representation scalar: range, sign and
/// ordering queries, plus casts from and to the canonical integer kinds.
///
/// The laws tie the identity and cast capabilities to the scaled-integer
/// model, so that generic code can compute with their mantissas.
pub trait MixedNum:
    MixedVal
    + MixedZero
    + MixedOne
    + MixedNumConversion<u32>
    + MixedNumConversion<u64>
    + MixedNumConversion<i32>
    + MixedNumConversion<i64>
{
    proof fn law_zero()
        ensures
            Self::zero_spec().val() == 0,
    ;

    proof fn law_one()
        ensures
            Self::one_spec().val() == Self::den_spec(),
    ;

    proof fn law_from_i64(n: i64)
        ensures
            (<Self as MixedNumConversion<i64>>::from_num_spec(n)).val()
                == sat_val::<Self>(n as int * Self::den_spec()),
    ;

    /// Maximum value of the type.
    fn mixed_max_value() -> (r: Self)
        ensures
            r.val() == Self::max_val_spec(),
    ;

    /// Minimum value of the type.
    fn mixed_min_value() -> (r: Self)
        ensures
            r.val() == Self::min_val_spec(),
    ;

    /// Get the sign of the argument with a unit value.
    /// Zero is of positive sign.
    fn mixed_sign(&self) -> (r: Self)
        ensures
            self.val() < 0 ==> r.val() == neg_val::<Self>(Self::den_spec()),
            0 <= self.val() ==> r.val() == Self::den_spec(),
    ;

    /// Returns true if `self` is strictly positive.
    fn mixed_is_positive(&self) -> (r: bool)
        ensures
            r == (0 < self.val()),
    ;

    /// Returns true if `self` is strictly negative.
    fn mixed_is_negative(&self) -> (r: bool)
        ensures
            r == (self.val() < 0),
    ;

    /// Strict order on the represented values.
    fn mixed_lt(&self, other: &Self) -> (r: bool)
        ensures
            r == (self.val() < other.val()),
    ;

    /// Equality of the represented values.
    fn mixed_eq(&self, other: &Self) -> (r: bool)
        ensures
            r == (self.val() == other.val()),
    ;
}

/// Marker capability of signed scalars, adding saturating negation.
pub trait MixedNumSigned: MixedVal {
    fn mixed_neg(&self) -> (r: Self)
        ensures
            r.val() == neg_val::<Self>(self.val()),
    ;
}

} // verus!
