[package]
name = "media_sink"
version = "0.1.0"
edition = "2021"
publish = false

[dependencies]
tokio-util = "*"
tokio = { version = "*", features = ["full"] }
tokio-tungstenite = "*"
futures = "*"
parking_lot = "*"
tracing = "*"

[dev-dependencies]
serde_json = "*"
