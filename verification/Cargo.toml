[package]
name = "wasm_store"
version = "0.1.0"
edition = "2021"
rust-version = "1.95"
publish = false

[dependencies]
anyhow = "=1.0.104"
magnus = { version = "=0.4.4", features = ["rb-sys-interop"] }
wasmtime = { version = "=36.0.19", default-features = false, features = ["runtime"] }
wasmtime-wasi = "=36.0.19"
