[package]
name = "pallet-auction"
version = "0.1.0"
edition = "2021"
publish = false

[dependencies]
sp-arithmetic = "=27.0.0"
sp-runtime = "=42.0.0"
sp-std = "=14.0.0"
frame-support = "=41.0.2"
frame-system = "=41.0.2"
orml-nft = "=1.5.0"
parity-scale-codec = { version = "=3.7.5", features = ["derive"] }
scale-info = { version = "=2.11.6", features = ["derive"] }
serde = { version = "=1.0.229", features = ["derive"] }
