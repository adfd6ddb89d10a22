[package]
name = "easyocr_rs"
version = "0.1.0"
edition = "2021"
publish = false

[dependencies]
image = { version = "*", default-features = false, features = ["png"] }
pyo3 = "*"
thiserror = "*"
