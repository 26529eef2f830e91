[package]
name = "acme_core"
version = "0.1.0"
edition = "2021"
publish = false

[dependencies]
base64 = "=0.21.7"
ring = "=0.16.20"
hyper = { version = "=0.14.32", features = ["client", "http1", "http2", "tcp"] }
hyper-rustls = { version = "=0.24.2", features = ["http2"] }
serde = { version = "=1.0.229", features = ["derive"] }
serde_json = "=1.0.151"
