[package]
name = "upload_core"
version = "0.1.0"
edition = "2021"
publish = false

[dependencies]
uuid = { version = "*", features = ["v4"] }
dirs = "*"
serde = { version = "*", features = ["derive"] }
serde_json = "*"
