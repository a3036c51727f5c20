[package]
name = "wattkit"
version = "0.1.0"
edition = "2021"
publish = false

[dependencies]
core-foundation = "=0.9.4"
oneshot = { version = "=0.1.13", default-features = false, features = ["std"] }
pyo3 = "=0.22.6"
thiserror = "=1.0.69"
