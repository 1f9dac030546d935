[package]
name = "orbit_sandbox"
version = "0.1.0"
edition = "2021"
publish = false

[dependencies]
gl = "*"
nalgebra = "*"
sdl2 = "*"
