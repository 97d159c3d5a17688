[package]
name = "positive_mahjong"
version = "0.1.1"
edition = "2021"
publish = false

[dependencies]
rand = "0.9"
serde = { version = "1", features = ["derive"] }
serde_json = "1"
tungstenite = "*"
crossbeam = "0.8"
url = "2"
