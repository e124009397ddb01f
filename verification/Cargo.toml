[package]
name = "aefi_scan_engine"
version = "0.1.0"
edition = "2021"
publish = false

[dependencies]
pyo3 = { version = "0.20", features = ["extension-module"] }
serialport = { version = "4", default-features = false }
thiserror = "1"
