[package]
name = "murmesh"
version = "0.1.0"
edition = "2021"
publish = false

[dependencies]
tokio = { version = "1", features = ["net", "io-util", "rt", "sync", "macros"] }
serde = "1"
bincode = "1"
