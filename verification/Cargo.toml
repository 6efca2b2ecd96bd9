[package]
name = "worker_pool"
version = "0.1.0"
edition = "2021"
publish = false

[dependencies]
lazy_static = "1"
napi = { version = "2", features = ["napi4"] }
napi-derive = "2"
rayon = "1"
