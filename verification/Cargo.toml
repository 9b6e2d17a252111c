[package]
name = "pong_session"
version = "0.1.0"
edition = "2021"
publish = false

[dependencies]
anyhow = "*"
bytes = "*"
crossterm = "*"
futures-util = "*"
native-tls = "*"
reqwest = { version = "*", default-features = false, features = ["json", "native-tls"] }
serde_json = "*"
tokio = { version = "*", features = ["rt-multi-thread", "macros", "sync", "time"] }
tokio-tungstenite = { version = "*", features = ["native-tls"] }
