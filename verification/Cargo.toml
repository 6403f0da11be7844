[package]
name = "splyce_lending"
version = "0.1.0"
edition = "2021"
publish = false

[dependencies]
anchor-lang = "0.30.1"
anchor-spl = "0.30.1"
borsh = "1"
num-derive = "0.4"
num-traits = "0.2"
solana-program = "1.18"
uint = "0.9"
