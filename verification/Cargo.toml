[package]
name = "ledger_queries"
version = "0.1.0"
edition = "2021"
publish = false

[dependencies]
tendermint-rpc = { version = "*", features = ["http-client"] }
