[package]
name = "broadcast_hub"
version = "0.1.0"
edition = "2021"
publish = false

[dependencies]
serde_json = "*"
tokio = { version = "*", features = ["full"] }
tokio-tungstenite = "*"
futures-util = "*"
