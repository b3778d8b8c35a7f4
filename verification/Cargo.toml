[package]
name = "breadhead-staking"
version = "0.1.0"
edition = "2021"
publish = false

[dependencies]
anchor-lang = "=0.28.0"
anchor-spl = { version = "=0.28.0", default-features = false, features = ["token"] }
mpl-token-metadata = { version = "=1.13.2", features = ["no-entrypoint"] }
solana-program = "=1.16.25"
spl-memo = { version = "=4.0.0", features = ["no-entrypoint"] }
spl-token = { version = "=4.0.0", features = ["no-entrypoint"] }
