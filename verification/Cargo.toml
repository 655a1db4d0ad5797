[package]
name = "dlc_manager"
version = "0.1.0"
edition = "2021"
publish = false

[dependencies]
bitcoin = "0.29.2"
lightning = "0.0.114"
secp256k1-zkp = "0.7.0"
bitcoincore-rpc = "0.16.0"
bitcoincore-rpc-json = "0.16.0"
colored = "2"
hex = "0.4"
serde = { version = "1", features = ["derive"] }
serde_json = "1"
dlc = "*"
dlc-messages = "*"
