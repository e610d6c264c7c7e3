[package]
name = "echo"
version = "0.1.0"
edition = "2021"
publish = false

[dependencies]
rand = "0.8"
tokio = { version = "1", features = ["rt-multi-thread", "macros", "sync", "time", "net", "io-util"] }
serde = { version = "1", features = ["derive"] }
serde_json = "1"
config = "0.13"
futures-util = "*"
tokio-tungstenite = "*"
log = "*"
env_logger = "*"
