[package]
name = "wego"
version = "0.1.0"
edition = "2021"
publish = false

[dependencies]
base64 = "0.13"
hyper = { version = "0.14", features = ["client", "http1", "tcp"] }
hyper-rustls = "0.23"
futures = "0.3"
serde = { version = "1", features = ["derive"] }
serde_json = "1"
serde_yaml = "0.8"
colored = "2"
dialoguer = "0.10"
async-recursion = "1"
