//! Rectangles measured in whole pixels: their area, and whether one can hold
//! another.
//!
//! - [`shape`] defines [`Rectangulo`] with its operations and the
//!   mathematical functions that their contracts are stated over.
//! - [`area`] offers the area computation as free functions, for callers that
//!   hold the two sides as plain numbers or as a pair.
//! - [`laws`] proves what holds of every rectangle.
//!
//! Sides are `u32` and areas are `u64`: the product of two sides always fits,
//! so no operation of this crate can overflow, fail or panic.

pub mod area;
pub mod laws;
pub mod shape;

pub use crate::shape::Rectangulo;
