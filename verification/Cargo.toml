[package]
name = "speedrun-api"
version = "0.1.0"
edition = "2021"
publish = false

[dependencies]
derive_builder = "*"
http = "1"
serde = { version = "1", features = ["derive"] }
serde_json = { version = "1", features = ["preserve_order"] }
serde_urlencoded = "0.7"
thiserror = "1"
url = { version = "2", features = ["serde"] }
