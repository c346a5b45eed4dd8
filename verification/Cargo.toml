[package]
name = "balance_ledger"
version = "0.1.0"
edition = "2021"
publish = false

[dependencies]
borsh = "1"
borsh-derive = "1"
solana-program = "1.18"
