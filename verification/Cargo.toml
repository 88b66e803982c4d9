[package]
name = "zenith"
version = "0.1.0"
edition = "2021"
publish = false

[dependencies]
chrono = "=0.4.45"
crossbeam-queue = "=0.3.14"
parking_lot = "=0.13.0"
priority-queue = "=2.7.0"
serde = { version = "=1.0.229", features = ["derive"] }
serde_json = "=1.0.154"
uuid = { version = "=1.29.0", features = ["v4"] }
wasmtime = "=45.0.3"
wasmtime-wasi = "=45.0.3"
