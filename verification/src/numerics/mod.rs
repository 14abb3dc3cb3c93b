//! Saturating, round-half-even signed fixed-point arithmetic.
//!
//! All arithmetic is integer-only; every out-of-range result is clamped to
//! the representable range of the format.

pub mod error;
pub mod fixed;
pub mod formats;
pub mod ops;
pub mod round;
pub mod laws;
