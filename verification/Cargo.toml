[package]
name = "wallet_batch"
version = "0.1.0"
edition = "2021"
publish = false

[dependencies]
solana-sdk = "1.18"
solana-program = "1.18"
spl-token = "4"
spl-associated-token-account = "2"
tokio = { version = "1", features = ["rt-multi-thread", "macros", "time", "sync"] }
clap = { version = "4", features = ["derive"] }
futures = "0.3"
log = "0.4"
anyhow = "1"
