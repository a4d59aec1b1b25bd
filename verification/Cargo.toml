[package]
name = "fixed_supply_token"
version = "0.1.0"
edition = "2021"
publish = false

[dependencies]
solana-program = "1"
spl-token = { version = "3.5", default-features = false, features = ["no-entrypoint"] }
