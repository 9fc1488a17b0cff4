[package]
name = "midi_ma_bridge"
version = "0.1.0"
edition = "2021"
publish = false

[dependencies]
md5 = "0.7"
serde = { version = "1", features = ["derive"] }
serde_json = "1"
tokio = { version = "1", features = ["rt-multi-thread", "macros", "sync", "time", "net", "io-util", "io-std"] }
tokio-tungstenite = "*"
futures-util = "0.3"
url = "2"
midir = "*"
