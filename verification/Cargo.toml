[package]
name = "banking_bridge"
version = "0.1.0"
edition = "2021"
publish = false

[dependencies]
agave-feature-set = "2.3"
crossbeam-channel = "0.5"
itertools = "0.12"
sha2 = "0.10"
solana-clock = "2"
solana-hash = "2"
solana-measure = "2"
solana-poh-config = "2"
solana-pubkey = "2"
solana-sdk = "2.3"
solana-timings = "2"
thiserror = "1"
