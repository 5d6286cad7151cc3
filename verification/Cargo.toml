[package]
name = "svo_backend"
version = "0.1.0"
edition = "2021"
publish = false

[dependencies]
uuid = { version = "=1.29.0", features = ["v4"] }
sha2 = "=0.10.9"
regex = "=1.13.1"
rand = "=0.9.5"
chrono = "=0.4.45"
image = "=0.25.10"
serde = { version = "=1.0.229", features = ["derive"] }
serde_json = "=1.0.154"
anyhow = "=1.0.104"
thiserror = "=2.0.21"
url = "2"
base64 = "0.22"
