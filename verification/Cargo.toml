[package]
name = "plinko"
version = "0.1.0"
edition = "2021"
publish = false

[dependencies]
cosmwasm-std = "=2.3.6"
cosmwasm-schema = "=2.3.6"
cw-storage-plus = "=2.0.0"
cw20 = "=2.0.0"
cw20-base = "=2.0.0"
injective-cosmwasm = "=0.3.1"
schemars = "=0.8.22"
serde = { version = "=1.0.229", features = ["derive"] }
sha2 = "=0.10.9"
thiserror = "=1.0.69"
