[package]
name = "mqtt"
version = "0.1.0"
edition = "2021"
publish = false

[dependencies]
bytes = "*"
tokio = { version = "*", features = ["io-util"] }
tokio-util = { version = "*", features = ["codec"] }
