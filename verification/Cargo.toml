[package]
name = "pay_flux"
version = "0.1.0"
edition = "2021"
publish = false

[dependencies]
anchor-lang = "=0.31.2"
solana-pubkey = { version = "=4.4.0", features = ["curve25519"] }
