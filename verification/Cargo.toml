[package]
name = "remcmp"
version = "0.1.0"
edition = "2021"
publish = false

[dependencies]
crc32fast = "1"
anyhow = "1"
tokio = { version = "1", features = ["full"] }
tracing = "0.1"
tracing-subscriber = "0.3"
