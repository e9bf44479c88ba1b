[package]
name = "model_server"
version = "0.1.0"
edition = "2021"
publish = false

[dependencies]
serde_json = "=1.0.151"
tiny_http = "=0.12.0"
uuid = { version = "=1.27.0", features = ["v4"] }
