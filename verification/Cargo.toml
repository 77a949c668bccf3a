[package]
name = "wasm_host_layer"
version = "0.1.0"
edition = "2021"
publish = false

[dependencies]
slab = "0.4"
pyo3 = "0.20"
