[package]
name = "swaptun"
version = "0.1.0"
edition = "2021"
publish = false

[dependencies]
regex = "1"
serde_json = "1"
url = "2"
serde = { version = "1", features = ["derive"] }
log = "0.4"
tokio = { version = "1", features = ["time"] }
validator = "0.20"
