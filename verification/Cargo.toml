[package]
name = "stellar_save"
version = "0.1.0"
edition = "2021"
publish = false

[dependencies]
soroban-sdk = "*"
stellar-access = "*"
stellar-tokens = "*"

[dev-dependencies]
soroban-sdk = { version = "*", features = ["testutils"] }
