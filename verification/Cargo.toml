[package]
name = "vm6502"
version = "0.1.0"
edition = "2021"
publish = false

[dependencies]
bytes = "1"
hex = "0.4"
pyo3 = "0.20"

[dev-dependencies]
arrayvec = "0.7"
rand = "0.8"
