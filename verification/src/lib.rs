//! Complex-number arithmetic and elementary transcendental functions,
//! written generically over a scalar capability trait.
//!
//! The scalar type supplies its arithmetic and transcendental primitives
//! through the [`scalar::Scalar`] and [`scalar::Elementary`] traits; every
//! complex-valued operation, on the rectangular [`complex::Complex`] form
//! and on the polar [`polar::ComplexPolar`] form alike, states in its
//! contract exactly which scalar operations combine its components. The
//! laws of [`laws`] build on those contracts; the ones that need exact
//! (associative, distributive) scalar arithmetic are stated under
//! [`scalar::ExactScalar`] and [`scalar::ExactField`], which the field
//! [`gf2::Gf2`] witnesses inside the library.

pub mod complex;
pub mod gf2;
pub mod laws;
pub mod ops;
pub mod polar;
pub mod scalar;

pub use complex::Complex;
pub use gf2::Gf2;
pub use polar::ComplexPolar;
pub use scalar::Elementary;
pub use scalar::ExactField;
pub use scalar::ExactScalar;
pub use scalar::Scalar;
