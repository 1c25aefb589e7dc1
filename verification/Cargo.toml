[package]
name = "jq_transform"
version = "0.1.0"
edition = "2021"
publish = false

[dependencies]
serde_json = { version = "=1.0.151", features = ["float_roundtrip"] }
jaq-core = "=1.5.1"
jaq-interpret = "=1.5.0"
jaq-parse = "=1.0.3"
jaq-std = "=1.6.0"
anyhow = "=1.0.104"
redpanda-transform-sdk = "=1.1.0"
talc = "=5.1.1"
