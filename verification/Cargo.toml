[package]
name = "quic_driver"
version = "0.1.0"
edition = "2021"
publish = false

[dependencies]
bytes = "1"
quinn-proto = { version = "0.11", default-features = false }
quinn-plaintext = "*"
tokio = { version = "1", features = ["rt", "rt-multi-thread", "sync", "time", "macros", "io-util"] }
parking_lot = "0.12"
dashmap = "6"
tracing = "0.1"
