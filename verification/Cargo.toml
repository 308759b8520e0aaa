[package]
name = "notify_rs"
version = "0.1.0"
edition = "2021"
publish = false

[dependencies]
notify-rust = "*"
pyo3 = "*"
