[package]
name = "routing_core"
version = "0.1.0"
edition = "2021"
publish = false

[dependencies]
bytes = "*"
tokio = { version = "*", default-features = false, features = ["sync"] }
