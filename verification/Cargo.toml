[package]
name = "backend"
version = "0.1.0"
edition = "2021"
publish = false

[dependencies]
chrono = { version = "=0.4.45", default-features = false, features = ["alloc", "std", "clock"] }
crc32fast = "=1.5.4"
flate2 = "=1.1.10"
snap = "=1.1.2"
lz4 = "=1.28.1"
serde = { version = "=1.0.229", features = ["derive"] }
serde_json = "=1.0.154"
async-trait = "0.1"
tokio = { version = "1", features = ["fs", "rt"] }
walkdir = "2"
