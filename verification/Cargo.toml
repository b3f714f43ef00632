[package]
name = "wasm_trap"
version = "0.1.0"
edition = "2021"
publish = false

[dependencies]
once_cell = "1"
wasmtime = { version = "0.16", default-features = false }
