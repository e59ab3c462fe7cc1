[package]
name = "copy_trading_bot"
version = "0.1.0"
edition = "2021"
publish = false

[dependencies]
anyhow = "1"
base64 = "0.21"
bs58 = "0.5"
serde = { version = "1", features = ["derive"] }
serde_json = "1"
solana-sdk = "2.2"
tokio = { version = "1", features = ["rt-multi-thread", "macros", "sync", "time"] }
log = "0.4"
env_logger = "0.11"
dotenv = "0.15"
