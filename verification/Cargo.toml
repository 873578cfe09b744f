[package]
name = "evm_host"
version = "0.1.0"
edition = "2021"
publish = false

[dependencies]
arrayvec = "0.7"
ethereum-types = { version = "0.12", default-features = false, features = ["std"] }
