[package]
name = "bunqledger"
version = "0.1.0"
edition = "2021"
publish = false

[dependencies]
anyhow = "*"
base64 = "*"
confy = "*"
isahc = "*"
openssl = "*"
serde = { version = "*", features = ["derive"] }
serde_json = "*"
