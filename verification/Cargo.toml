[package]
name = "shine_helper"
version = "0.1.0"
edition = "2021"
publish = false

[dependencies]
rand = "0.8"
bytes = "1"
serde = { version = "1", features = ["derive"] }
serde_json = "1"
dirs = "5"
tokio = { version = "1", features = ["full"] }
tokio-tungstenite = "0.20"
futures-util = "0.3"
reqwest = { version = "0.11", default-features = false, features = ["json", "stream", "rustls-tls"] }
uuid = { version = "1", features = ["v4"] }
thiserror = "1"
log = "0.4"
cpal = "0.15"
rodio = "0.17"
rusqlite = { version = "0.29", features = ["bundled"] }
