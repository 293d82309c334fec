[package]
name = "linreg"
version = "0.1.0"
edition = "2021"
publish = false

[dependencies]
csv = "*"
nalgebra = "*"
serde = { version = "*", features = ["derive"] }
