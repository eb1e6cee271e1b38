[package]
name = "stable_dira"
version = "0.1.0"
edition = "2021"
publish = false

[dependencies]
cosmwasm-std = "*"
cosmwasm-schema = "*"
cw2 = "*"
