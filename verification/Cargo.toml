[package]
name = "near_evm_runner"
version = "0.1.0"
edition = "2021"
publish = false

[dependencies]
ethereum-types = { version = "=0.16.0", default-features = false, features = ["std"] }
hex = "=0.4.3"
keccak-hash = "=0.12.0"
near-vm-errors = "=3.0.0"
