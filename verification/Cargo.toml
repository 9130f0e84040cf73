[package]
name = "ollama"
version = "0.1.0"
edition = "2021"
publish = false

[dependencies]
anyhow = "1"
bytes = "1"
futures = "0.3"
http = "1"
http-body = "1"
schemars = "1"
serde = { version = "1", features = ["derive"] }
serde_json = "1"
url = "2"
