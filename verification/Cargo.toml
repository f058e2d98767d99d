[package]
name = "contact_resolution"
version = "0.1.0"
edition = "2021"
publish = false

[dependencies]
nalgebra = "0.30"
ncollide3d = "0.33"
