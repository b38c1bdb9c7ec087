[package]
name = "tailor_resume"
version = "0.1.0"
edition = "2021"
publish = false

[dependencies]
regex = "1"
uuid = { version = "1", features = ["v4"] }
chrono = "0.4"
serde = { version = "1", features = ["derive"] }
serde_json = "1"
reqwest = { version = "0.12", default-features = false, features = ["json", "multipart", "rustls-tls"] }
tokio = { version = "1", features = ["time"] }
keyring = "3"
dirs = "6"
tempfile = "3"
base64 = "0.22"
log = "0.4"
env_logger = "0.11"
