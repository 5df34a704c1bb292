[package]
name = "camera_ftp_companion"
version = "0.1.0"
edition = "2021"
publish = false

[dependencies]
memchr = "=2.8.3"
base64 = "=0.22.1"
serde = { version = "=1.0.229", features = ["derive"] }
serde_json = "=1.0.154"
tokio = { version = "=1.54.1", features = ["sync", "rt", "macros"] }
chrono = "=0.4.45"
thiserror = "=2.0.21"
dirs = "*"
