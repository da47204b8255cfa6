//! Complex number model: the Cartesian and Polar value types.

use vstd::prelude::*;

pub mod ops;
pub mod cartesian_impl;
pub mod polar_impl;

verus! {

/// Complex number in Cartesian form, representing `re + im * i`.
#[derive(Clone, Copy, Debug, PartialEq, Eq, Structural)]
pub struct Cartesian<T> {
    /// Real part.
    pub re: T,
    /// Imaginary part.
    pub im: T,
}

/// Complex number in polar form, representing `mag * e^(i * ang)`.
///
/// `mag` is non-negative by convention of producers, not by construction;
/// `ang` is canonicalized to `[-pi, pi)` by every function that computes an
/// angle, but direct construction does not re-normalize it.
#[derive(Clone, Copy, Debug, PartialEq, Eq, Structural)]
pub struct Polar<T> {
    /// Magnitude.
    pub mag: T,
    /// Angle in radians.
    pub ang: T,
}

} // verus!
