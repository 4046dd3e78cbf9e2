[package]
name = "easy_jsonrpc"
version = "0.1.0"
edition = "2021"
publish = false

[dependencies]
jsonrpc-core = { version = "*", default-features = false }
serde = "1"
serde_json = "1"
syn = { version = "0.15", features = ["full"] }
quote = "0.6"
proc-macro2 = "0.4"
