[package]
name = "pump_instructions"
version = "0.1.0"
edition = "2021"
publish = false

[dependencies]
solana-sdk = "1.18"
anyhow = "1"
base64 = "0.13"
dotenvy = "0.15"
once_cell = "1"
serde_json = "1"

[dev-dependencies]
spl-token = "4.0"
spl-associated-token-account = "2.3"
