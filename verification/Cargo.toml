[package]
name = "clad_core"
version = "0.1.0"
edition = "2021"
publish = false

[dependencies]
anchor-lang = "=0.31.2"
anchor-spl = { version = "=0.31.2", default-features = false, features = ["token", "associated_token"] }
pyth-sdk = "=0.8.0"
pyth-sdk-solana = "=0.10.6"
solana-program = "=2.3.0"
spl-account-compression = { version = "=1.0.0", features = ["cpi"] }
