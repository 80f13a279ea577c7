[package]
name = "counter_pallet"
version = "0.1.0"
edition = "2021"
publish = false

[dependencies]
polkadot-sdk-frame = { version = "=0.7.0", features = ["experimental", "runtime"] }
parity-scale-codec = { version = "3", features = ["derive"] }
scale-info = { version = "2", features = ["derive"] }
