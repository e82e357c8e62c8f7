[package]
name = "bark_rs"
version = "0.1.0"
edition = "2021"
publish = false

[dependencies]
reqwest = { version = "0.12", features = ["blocking", "json"] }
serde = "1"
serde_json = "1"
