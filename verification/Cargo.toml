[package]
name = "post"
version = "0.1.0"
edition = "2021"
publish = false

[dependencies]
uuid = "=1.29.1"
time = { version = "=0.3.55", features = ["parsing"] }
sha2 = "=0.10.9"
base64 = "=0.22.1"
serde = { version = "=1.0.229", features = ["derive"] }
serde_json = "=1.0.154"
thiserror = "=2.0.21"
regex = "=1.13.1"
