//! Fixed-point numbers and the small vectors and matrices built from them.

pub mod bounds;
pub mod scalar;
pub mod vector;
