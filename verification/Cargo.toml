[package]
name = "token_haver"
version = "0.1.0"
edition = "2021"
publish = false

[dependencies]
solana-program = "=1.18.26"
spl-governance = "=4.0.0"

[dev-dependencies]
borsh = "=0.10.4"
