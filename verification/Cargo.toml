[package]
name = "arrow_prime"
version = "0.1.0"
edition = "2021"
publish = false

[dependencies]
arrow2 = "0.17"
libc = "0.2"
pyo3 = { version = "0.18", features = ["extension-module"] }
