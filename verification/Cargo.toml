[package]
name = "ore_miner"
version = "0.1.0"
edition = "2021"
publish = false

[dependencies]
clap = { version = "4.4", features = ["derive"] }
ore-program = "1.2"
rand = "0.8"
solana-program = "1.18"
solana-sdk = "1.18"
spl-associated-token-account = { version = "2.2", features = ["no-entrypoint"] }
spl-token = { version = "4", features = ["no-entrypoint"] }
tokio = { version = "1.35", features = ["full"] }
