[package]
name = "ido_with_vesting"
version = "0.1.0"
edition = "2021"
publish = false

[dependencies]
solana-program = "*"
spl-token-2022 = { version = "*", features = ["no-entrypoint"] }
