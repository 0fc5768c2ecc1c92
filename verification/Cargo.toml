[package]
name = "mediabox"
version = "0.1.0"
edition = "2021"
publish = false

[dependencies]
fluent-uri = "0.1"
gcd = "2"
anyhow = "1"
thiserror = "1"
downcast = "0.11"
tokio = { version = "1", features = ["fs", "io-util", "rt"] }
