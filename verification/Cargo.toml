[package]
name = "interledger_stream"
version = "0.1.0"
edition = "2021"
publish = false

[dependencies]
bytes = "0.4"
futures = "0.3"
log = "0.4"
num = "0.2"
serde = { version = "1", features = ["derive"] }
tokio = { version = "0.2", features = ["rt-core", "sync", "time"] }
