[package]
name = "bee-storage-rocksdb"
version = "0.1.0"
edition = "2021"
publish = false

[dependencies]
rocksdb = { version = "0.15", default-features = false }
tokio = { version = "1", features = ["time", "rt"] }
tokio-stream = "0.1"
futures = "0.3"
async-trait = "0.1"
log = "0.4"
