//! Velocity constraints and the equations that fill them.

pub mod contact_equation;
pub mod velocity_constraint;

pub use contact_equation::{CorrectionMode, CorrectionParameters};
pub use velocity_constraint::VelocityConstraint;
