[package]
name = "wasmtime_rb"
version = "0.1.0"
edition = "2021"
publish = false

[dependencies]
wasmtime = { version = "=2.0.2", default-features = false, features = ["cranelift", "parallel-compilation"] }
wasmtime-wasi = "=2.0.2"
wasi-common = "=2.0.2"
wasi-cap-std-sync = "=2.0.2"
cap-std = "0.26"
magnus = "0.4"
