[package]
name = "tts_overlay"
version = "0.1.0"
edition = "2021"
publish = false

[dependencies]
base64 = "0.22"
env_logger = "0.11"
oneshot = "0.1"
reqwest = { version = "0.12", features = ["blocking", "json"] }
rodio = { version = "=0.23.0", default-features = false, features = ["wav"] }
serde = { version = "1", features = ["derive"] }
serde_json = "1"
toml = "0.8"
