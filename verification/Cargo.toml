[package]
name = "viessmann_sdk"
version = "0.1.0"
edition = "2021"
publish = false

[dependencies]
reqwest = { version = "0.12", features = ["blocking"] }
serde_json = "1"
serde_urlencoded = "0.7"
