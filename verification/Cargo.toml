[package]
name = "robots_consumer"
version = "0.1.0"
edition = "2021"
publish = false

[dependencies]
dirs = "5"
reqwest = { version = "0.12", features = ["blocking"] }
serde_json = "1"
