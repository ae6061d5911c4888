[package]
name = "pyzalea"
version = "0.1.0"
edition = "2021"
publish = false

[dependencies]
anyhow = "1"
azalea = "*"
azalea-client = "*"
azalea-core = "*"
azalea-entity = "*"
lazy_static = "1"
parking_lot = "0.12"
pyo3 = { version = "*", features = ["extension-module"] }
tokio = { version = "1", features = ["rt", "rt-multi-thread", "time"] }
