//! The bodies that take part in the simulation.

pub mod rigid_body;

pub use rigid_body::{RigidBody, RigidBodyState};
