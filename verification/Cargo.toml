[package]
name = "nullamp"
version = "0.1.0"
edition = "2021"
publish = false

[dependencies]
serde = { version = "1", features = ["derive"] }
serde_json = "1"
log = "0.4"
env_logger = { version = "0.11", default-features = false }
rusqlite = { version = "0.37", features = ["bundled"] }
lofty = "0.22"
walkdir = "2"
rayon = "1"
dirs = "6"
reqwest = { version = "0.12", default-features = false, features = ["json", "stream", "rustls-tls"] }
tokio = { version = "1", features = ["rt-multi-thread", "fs", "io-util"] }
futures = "0.3"
rodio = "0.20"
cpal = "0.15"
whisper-rs = "0.15"
