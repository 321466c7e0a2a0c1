[package]
name = "wallet_core"
version = "0.1.0"
edition = "2021"
publish = false

[dependencies]
axum = "*"
base64 = "*"
bs58 = "*"
serde = { version = "*", features = ["derive"] }
solana-sdk = "*"
spl-token = "*"
tokio = { version = "*", features = ["full"] }
