[package]
name = "websocket_provider"
version = "0.1.0"
edition = "2021"
publish = false

[dependencies]
url = "*"
base64 = "*"
tokio = { version = "*", features = ["rt-multi-thread", "macros", "net", "time", "sync", "io-util"] }
tokio-tungstenite = "*"
futures-util = "*"
async-nats = "*"
serde = { version = "*", features = ["derive"] }
serde_json = "*"
