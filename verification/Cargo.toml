[package]
name = "zeke_contract"
version = "0.1.0"
edition = "2021"
publish = false

[dependencies]
borsh = "0.9"
home = "0.5"
solana-program = "1"
solana-sdk = "1"
yaml-rust = "0.4"
