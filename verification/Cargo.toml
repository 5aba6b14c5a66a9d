[package]
name = "rapier_c"
version = "0.1.0"
edition = "2021"
publish = false

[dependencies]
rapier3d = "=0.34.0"
