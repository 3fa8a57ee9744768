[package]
name = "chain_client"
version = "0.1.0"
edition = "2021"
publish = false

[dependencies]
hex = "=0.4.3"
serde_json = "=1.0.154"
sp-core = { version = "*", default-features = false }
substrate-api-client = { version = "*", default-features = false }
