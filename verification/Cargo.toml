[package]
name = "anchor_compressed_nft"
version = "0.1.0"
edition = "2021"
publish = false

[dependencies]
solana-program = "1"
anchor-lang = "0.28.0"
anchor-spl = { version = "0.28.0", features = ["metadata"] }
mpl-bubblegum = "1"
spl-account-compression = { version = "0.2.0", features = ["cpi"] }
