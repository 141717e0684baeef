[package]
name = "contribute"
version = "0.1.0"
edition = "2021"
publish = false

[dependencies]
cosmwasm-std = "*"
cw2 = "*"
cw20 = "*"
cw-storage-plus = "*"
schemars = "*"
serde = { version = "*", features = ["derive"] }
