[package]
name = "hotdog"
version = "0.1.0"
edition = "2021"
publish = false

[dependencies]
serde = { version = "=1.0.229", features = ["derive"] }
serde_json = "=1.0.154"
thiserror = "=1.0.69"
ureq = "=2.12.1"

[dev-dependencies]
base64 = "=0.22.1"
