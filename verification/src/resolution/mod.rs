//! From contacts to the equations that the solver works on.

pub mod constraint;
