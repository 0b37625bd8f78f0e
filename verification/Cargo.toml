[package]
name = "spin_factors"
version = "0.1.0"
edition = "2021"
publish = false

[dependencies]
wasmtime = "=22.0.0"
wasmtime-wasi = "=22.0.0"
wasmtime-wasi-http = "=22.0.0"
syn = { version = "2", features = ["full"] }
quote = "1"
proc-macro2 = "1"
