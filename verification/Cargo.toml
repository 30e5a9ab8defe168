[package]
name = "voxforge"
version = "0.1.0"
edition = "2021"
publish = false

[dependencies]
regex-lite = "0.1"
serde = { version = "1", features = ["derive"] }
serde_json = "1"
anyhow = "1"
log = "0.4"
env_logger = "*"
chrono = "0.4"
uuid = { version = "1", features = ["v4"] }
rusqlite = { version = "*", features = ["bundled"] }
hound = "3"
tokio = { version = "1", features = ["rt-multi-thread", "fs", "io-util", "macros"] }
futures-util = "0.3"
reqwest = { version = "0.12", default-features = false, features = ["json", "multipart", "stream", "rustls-tls"] }
cpal = "0.15"
whisper-rs = "*"
core-foundation = "*"
