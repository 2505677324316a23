[package]
name = "clmm_positions"
version = "0.1.0"
edition = "2021"
publish = false

[dependencies]
anchor-lang = "=0.29.0"
clap = { version = "4", features = ["derive", "env"] }
rand = "=0.7.3"
raydium-amm-v3 = { version = "=0.1.0", features = ["no-entrypoint"] }
serde_json = "1"
solana-sdk = "=1.16.25"
spl-associated-token-account = { version = "=2.2.0", features = ["no-entrypoint"] }
spl-memo = { version = "=4.0.0", features = ["no-entrypoint"] }
spl-token = { version = "=4.0.0", features = ["no-entrypoint"] }
spl-token-2022 = { version = "=0.9.0", features = ["no-entrypoint"] }
