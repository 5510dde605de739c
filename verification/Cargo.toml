[package]
name = "game_escrow"
version = "0.1.0"
edition = "2021"
publish = false

[dependencies]
borsh = "1"
solana-program = "1.18"
spl-token = "4.0"
