[package]
name = "teamwallet"
version = "0.1.0"
edition = "2021"
publish = false

[dependencies]
anchor-lang = "0.32.1"
anchor-spl = { version = "0.32.1", default-features = false, features = ["token", "token_2022"] }
spl-token-metadata-interface = "0.7"
