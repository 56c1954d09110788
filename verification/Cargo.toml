[package]
name = "monero_rpc"
version = "0.1.0"
edition = "2021"
publish = false

[dependencies]
fixed-hash = "*"
hex = "0.4"
jsonrpc-core = "*"
monero = "*"
reqwest = { version = "*", default-features = false }
rustc-hex = "2"
serde = { version = "1", features = ["derive"] }
serde_json = "1"
uuid = { version = "1", features = ["v4"] }
