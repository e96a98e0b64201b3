[package]
name = "wvec"
version = "0.1.0"
edition = "2021"
publish = false

[dependencies]
pyo3 = "=0.29.3"
const_soft_float = "=0.1.4"
