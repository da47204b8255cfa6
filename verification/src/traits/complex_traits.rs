//! Capability contracts of the complex number forms.
//!
//! Each capability names its result through a per-implementation spec
//! function; the implementations in the complex module pin those down over
//! the scaled-integer model of the backing scalar.

use vstd::prelude::*;

use crate::complex::Cartesian;
use crate::complex::Polar;

verus! {

/// Conversion into Cartesian form.
pub trait ToCartesian<T>: Sized {
    /// The Cartesian form of `self`.
    spec fn to_cartesian_spec(&self) -> Cartesian<T>;

    fn to_cartesian(&self) -> (r: Cartesian<T>)
        ensures
            r == self.to_cartesian_spec(),
    ;
}

/// Conversion into polar form.
pub trait ToPolar<T>: Sized {
    /// The polar form of `self`.
    spec fn to_polar_spec(&self) -> Polar<T>;

    fn to_polar(&self) -> (r: Polar<T>)
        ensures
            r == self.to_polar_spec(),
    ;
}

/// Type cast from a real scalar to a complex form.
pub trait MixedComplexConversion<T>: Sized {
    /// The complex value representing the real number `number`.
    spec fn to_complex_spec(number: T) -> Self;

    /// Type cast from real number `T` to a complex form.
    fn mixed_to_complex(number: T) -> (r: Self)
        ensures
            r == Self::to_complex_spec(number),
    ;
}

/// Construction of a complex value from Cartesian coordinates.
pub trait NewFromCartesian<T>: Sized {
    /// The complex value with real part `re` and imaginary part `im`.
    spec fn from_cartesian_spec(re: T, im: T) -> Self;

    /// Create a complex number from Cartesian coordinates.
    fn new_from_cartesian(re: T, im: T) -> (r: Self)
        ensures
            r == Self::from_cartesian_spec(re, im),
    ;
}

/// Construction of a complex value from polar coordinates.
pub trait NewFromPolar<T>: Sized {
    /// The complex value with magnitude `mag` and angle `ang`.
    spec fn from_polar_spec(mag: T, ang: T) -> Self;

    /// Create a complex number from polar coordinates.
    fn new_from_polar(mag: T, ang: T) -> (r: Self)
        ensures
            r == Self::from_polar_spec(mag, ang),
    ;
}

/// Magnitude of a complex number.
pub trait Mag<T>: Sized {
    /// The magnitude of `self`.
    spec fn mag_spec(&self) -> T;

    /// Magnitude of the complex number.
    fn mag(&self) -> (r: T)
        ensures
            r == self.mag_spec(),
    ;

    /// Magnitude of the complex number.
    fn abs(&self) -> (r: T)
        ensures
            r == self.mag_spec(),
    ;
}

/// Argument (angle) of a complex number.
pub trait Arg<T>: Sized {
    /// The argument of `self`.
    spec fn arg_spec(&self) -> T;

    /// Argument of the complex number.
    fn arg(&self) -> (r: T)
        ensures
            r == self.arg_spec(),
    ;

    /// Angle of the complex number.
    fn ang(&self) -> (r: T)
        ensures
            r == self.arg_spec(),
    ;
}

/// Complex conjugation, possibly crossing into another complex form.
pub trait Conj<C>: Sized {
    /// The conjugate of `self`.
    spec fn conj_spec(&self) -> C;

    /// Complex conjugate of `self`.
    fn conj(&self) -> (r: C)
        ensures
            r == self.conj_spec(),
    ;
}

} // verus!
