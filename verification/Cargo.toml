[package]
name = "gacha_marketplace"
version = "0.1.0"
edition = "2021"
publish = false

[dependencies]
borsh = "0.9"
nanorand = "0.5"
num-traits = "0.2"
solana-program = "1.10"
spl-associated-token-account = { version = "1.1", features = ["no-entrypoint"] }
spl-token = { version = "3.3", features = ["no-entrypoint"] }
thiserror = "1"
