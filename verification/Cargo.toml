[package]
name = "bulk_rpc"
version = "0.1.0"
edition = "2021"
publish = false

[dependencies]
serde = { version = "1", features = ["derive"] }
serde_json = "1"
jsonrpc-core = "*"
tiny-keccak = { version = "2", features = ["keccak"] }
