[package]
name = "orai_tier"
version = "0.1.0"
edition = "2021"
publish = false

[dependencies]
cosmwasm-std = { version = "=3.0.10", features = ["staking"] }
serde = { version = "=1.0.229", features = ["derive"] }
schemars = "=0.8.22"
