[package]
name = "lst_lending_amm"
version = "0.1.0"
edition = "2021"
publish = false

[dependencies]
anchor-lang = "=0.29.0"
anchor-spl = { version = "=0.29.0", default-features = false, features = ["token"] }
pyth-sdk-solana = "=0.8.0"
spl-token = { version = "=4.0.0", features = ["no-entrypoint"] }
