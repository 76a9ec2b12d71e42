[package]
name = "nesql"
version = "8.0.0"
edition = "2021"
publish = false

[dependencies]
nedb-engine = "=12.15.16"
serde_json = "=1.0.154"
napi = "=3.16.1"
napi-derive = "=3.7.0"
pyo3 = "=0.30.1"
