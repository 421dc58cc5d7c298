//! A scalar confined to the closed unit interval.
//!
//! The crate offers one value type, [`Closed01`]: an immutable scalar that can
//! only ever hold a value between zero and one, both endpoints included. The
//! scalar is kept as an exact pair of integers (a numerator and a resolution),
//! so every operation in the interval algebra — saturating addition and
//! subtraction, blending toward either endpoint, inversion, rounding — is
//! specified by its exact formula and proved to keep the value inside the
//! interval.

pub mod sampling;
pub mod unit_interval;

pub use sampling::sample;
pub use unit_interval::Closed01;
pub use unit_interval::OutOfRangeError;
