[package]
name = "binance_ws"
version = "0.1.0"
edition = "2021"
publish = false

[dependencies]
serde = { version = "1.0", features = ["derive"] }
serde_json = "1.0"
tungstenite = { version = "0.19", features = ["native-tls"] }
url = "2.3"
