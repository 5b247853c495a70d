[package]
name = "drivingsim"
version = "0.1.0"
edition = "2021"
publish = false

[dependencies]
nalgebra = "*"
tiny-skia = "*"
pyo3 = "*"
