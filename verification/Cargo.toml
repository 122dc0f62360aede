[package]
name = "milestone-escrow"
version = "0.1.0"
edition = "2021"
publish = false

[dependencies]
soroban-sdk = "26"

[dev-dependencies]
soroban-sdk = { version = "26", features = ["testutils"] }
