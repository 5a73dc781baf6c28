[package]
name = "wasm_host"
version = "0.1.0"
edition = "2021"
publish = false

[dependencies]
async-trait = "0.1"
chrono = "0.4"
http = "0.2"
r2d2 = "0.8"
redis = { version = "0.23", features = ["r2d2"] }
reqwest = { version = "0.11", default-features = false, features = ["blocking"] }
serde_json = "1"
url = "2"
wasmtime = { version = "12", default-features = false, features = ["async", "component-model", "cranelift", "wat"] }
wasmtime-wasi = { version = "12", default-features = false, features = ["preview2", "sync"] }
