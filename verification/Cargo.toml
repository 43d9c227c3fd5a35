[package]
name = "proxy_rewrite"
version = "0.1.0"
edition = "2021"
publish = false

[dependencies]
serde_json = { version = "=1.0.151", features = ["preserve_order", "float_roundtrip"] }
http = "=1.5.0"
reqwest = { version = "=0.13.5", default-features = false }
