[package]
name = "coinwrap"
version = "0.1.0"
edition = "2021"
publish = false

[dependencies]
cosmwasm-std = "=2.3.5"
cw20 = "=2.0.0"
serde = { version = "1", features = ["derive"] }
