[package]
name = "chain_store"
version = "0.1.0"
edition = "2021"
publish = false

[dependencies]
rocksdb = "*"
prometheus = { version = "*", default-features = false }
bitcoin = "0.32"
