//! Numeric abstraction layer that lets one generic algorithm body run over
//! different scalar representations (fixed-point of various widths, plain
//! integers), together with a complex-number algebra (Cartesian and Polar
//! forms) and the approximation kernels (polynomial sine/cosine, phase
//! wrapping, polynomial atan2, NIIRF square root, integer power) that the
//! capability contracts are implemented with.
//!
//! Every scalar capability is specified against an exact scaled-integer
//! model: a scalar is modelled by its mantissa `val` and a positive scale
//! `den`, the represented number being `val / den`.  All arithmetic is
//! truncating and saturating in that model, so the contracts pin results
//! exactly rather than approximately.

pub mod traits;
pub mod trigonometry;
pub mod complex;
pub mod q24;
pub mod int_impl;
