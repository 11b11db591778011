[package]
name = "metadao"
version = "0.1.0"
edition = "2021"
publish = false

[dependencies]
near-sdk = { version = "4.1.1", default-features = false }
near-contract-standards = "4.1.1"
near-units = "0.2.0"
thiserror = "1.0"
