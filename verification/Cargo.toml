[package]
name = "artaverse"
version = "0.1.0"
edition = "2021"
publish = false

[dependencies]
cosmwasm-std = "=1.0.0"
cw2 = "0.13"
cw721-base = "0.13"
cw-storage-plus = "0.13"
cw-utils = "0.13"
schemars = "0.8"
serde = { version = "1.0", default-features = false, features = ["derive"] }
thiserror = "1.0"
