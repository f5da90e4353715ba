[package]
name = "degen_roulette"
version = "0.1.0"
edition = "2021"
publish = false

[dependencies]
anchor-lang = "=0.32.2"
orao-solana-vrf = { version = "=0.7.0", default-features = false, features = ["cpi"] }
solana-sha256-hasher = "=2.3.0"
