[package]
name = "extractous"
version = "0.3.0"
edition = "2021"
publish = false

[dependencies]
jni = "0.21"
pyo3 = { version = "0.26", features = ["extension-module", "abi3-py39"] }
strum = "0.26"
strum_macros = "0.26"
