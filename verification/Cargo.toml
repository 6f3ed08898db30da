[package]
name = "orderly_contract"
version = "0.1.0"
edition = "2021"
publish = false

[dependencies]
near-sdk = { version = "4.0.0", default-features = false, features = ["legacy"] }
near-contract-standards = "4.0.0"
