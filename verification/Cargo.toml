[package]
name = "wasm_types"
version = "0.1.0"
edition = "2021"
publish = false

[dependencies]
parity-wasm = { version = "=0.45.0", features = ["simd", "atomics"] }
