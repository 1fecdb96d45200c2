[package]
name = "receipt_verifier"
version = "0.1.0"
edition = "2021"
publish = false

[dependencies]
anyhow = "*"
axum = "*"
base64 = "=0.23.1"
bincode = "=1.3.3"
risc0-zkvm = { version = "=3.0.6", default-features = false, features = ["std"] }
rsa = "=0.9.10"
serde = { version = "*", features = ["derive"] }
serde_json = "*"
sha2 = { version = "=0.10.9", features = ["oid"] }
tokio = { version = "*", features = ["full"] }
tokio-stream = "*"
tower-http = { version = "*", features = ["limit"] }
