[package]
name = "chain_update"
version = "0.1.0"
edition = "2021"
publish = false

[dependencies]
near-primitives = "=0.25.0"
near-chain-primitives = "=0.25.0"
tracing = "=0.1.44"
borsh = "=1.8.1"
