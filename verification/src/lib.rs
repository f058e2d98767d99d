//! Contact resolution for rigid bodies on fixed-point numbers.
//!
//! The crate turns the contacts that a narrow phase reports between pairs of
//! rigid bodies into velocity constraints for an iterative solver, and keeps
//! track of which bodies have to be woken up when contacts appear or vanish.
//! All quantities are fixed-point numbers, so that every result is an exact
//! function of the inputs.

pub mod math;
pub mod object;
pub mod detection;
pub mod resolution;
