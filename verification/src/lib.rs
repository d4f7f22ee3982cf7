//! Value types of the code generator's intermediate representation.
//!
//! - [`types`] holds [`types::Type`], the one-byte encoding of a scalar or SIMD vector
//!   type, with its queries and the two operations that make one type from another.
//! - [`display`] writes a type as it stands in printed code.
//! - [`laws`] states what holds of these operations taken together.
//! - [`powers`] and [`decimal`] hold the arithmetic that lane counts and numerals need.

pub mod decimal;
pub mod display;
pub mod laws;
pub mod powers;
pub mod types;
