[package]
name = "secludia"
version = "0.1.0"
edition = "2021"
publish = false

[dependencies]
argon2 = "0.5"
dirs = "6"
env_logger = "0.11"
log = "0.4"
serde_json = "1"
tokio = { version = "1", features = ["time"] }
url = "2"
