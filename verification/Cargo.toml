[package]
name = "utxo_merger"
version = "0.1.0"
edition = "2021"
publish = false

[dependencies]
hex = "=0.4.3"
futures = "=0.1.31"
