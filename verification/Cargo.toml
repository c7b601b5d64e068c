[package]
name = "wasm_modding"
version = "0.1.0"
edition = "2021"
publish = false

[dependencies]
rand = { version = "0.8", features = ["small_rng"] }
structopt = "0.3"
wasmer = "4"
