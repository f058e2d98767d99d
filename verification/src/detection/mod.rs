//! Collision tracking between rigid bodies.

pub mod activation_manager;
pub mod bodies_bodies;
pub mod constraint;
pub mod contact;

pub use activation_manager::ActivationManager;
pub use bodies_bodies::BodyBodyDispatcher;
pub use constraint::Constraint;
pub use contact::Contact;
