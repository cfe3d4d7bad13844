[package]
name = "stages-thermo"
version = "0.2.0"
edition = "2021"
publish = false

[dependencies]
vle-thermo = { version = "0.11", features = ["component-db"] }
thiserror = "2"
pyo3 = { version = "*", features = ["abi3-py310"] }
