[package]
name = "contract_adapter"
version = "0.1.0"
edition = "2021"
publish = false

[dependencies]
anyhow = "=1.0.104"
cosmwasm-std = { version = "=1.5.11", features = ["staking", "stargate"] }
serde = { version = "=1.0.229", default-features = false, features = ["derive"] }
