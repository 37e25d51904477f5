[package]
name = "fsevent-stream"
version = "0.1.0"
edition = "2021"
publish = false

[dependencies]
core-foundation = "0.9"
futures = "0.3"
log = "0.4"
tokio = { version = "1", features = ["sync"] }
tokio-stream = { version = "0.1", default-features = false }
