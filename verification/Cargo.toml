[package]
name = "airdrop_claim"
version = "0.1.0"
edition = "2021"
publish = false

[dependencies]
pinocchio = "=0.9.3"
pinocchio-pubkey = "=0.3.0"
solana-ed25519-program = "=3.0.0"
solana-program = "=5.1.0"
