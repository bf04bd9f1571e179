[package]
name = "gateway_config"
version = "0.1.0"
edition = "2021"
publish = false

[dependencies]
bip39 = { version = "2", features = ["rand", "serde"] }
url = { version = "2", features = ["serde"] }
dirs = "4"
serde = { version = "1", features = ["derive"] }
humantime-serde = "1"
