[package]
name = "wiring_rs"
version = "0.1.0"
edition = "2021"
publish = false

[dependencies]
serde_json = "1"
pyo3 = { version = "0.20", features = ["extension-module"] }
