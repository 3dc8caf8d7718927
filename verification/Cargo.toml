[package]
name = "wallet_recovery"
version = "0.1.0"
edition = "2021"
publish = false

[dependencies]
secp256k1 = { version = "0.28", features = ["hashes"] }
time = { version = "0.3", features = ["formatting"] }
url = "2"
base64 = "0.21"
serde = { version = "1", features = ["derive"] }
serde_json = "1"
thiserror = "1"
anyhow = "1"
http = "1"
jsonwebtoken = "9"
