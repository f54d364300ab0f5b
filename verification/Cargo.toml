[package]
name = "ws_connect"
version = "0.1.0"
edition = "2021"
publish = false

[dependencies]
tungstenite = "*"
tokio = { version = "*", features = ["net"] }
