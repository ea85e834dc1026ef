[package]
name = "crypto_facade"
version = "0.1.0"
edition = "2021"
publish = false

[dependencies]
fastcrypto = "*"
hex = "0.4"
rand = "0.8"
thiserror = "1"
uniffi = { version = "*", default-features = false }
