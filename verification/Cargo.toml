[package]
name = "voltr_amm"
version = "0.1.0"
edition = "2021"
publish = false

[dependencies]
anyhow = "1"
rust_decimal = "1"
solana-sdk = { version = "2.2", default-features = false }
spl-token = { version = "8", features = ["no-entrypoint"] }
spl-token-2022 = { version = "8", features = ["no-entrypoint"] }

[dev-dependencies]
spl-associated-token-account = { version = "7", features = ["no-entrypoint"] }
