[package]
name = "datahaven_solana"
version = "0.1.0"
edition = "2021"
publish = false

[dependencies]
anchor-lang = "=0.31.2"
ed25519-dalek = "=3.0.0"
