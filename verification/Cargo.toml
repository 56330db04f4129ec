[package]
name = "asset_co2_emissions"
version = "0.1.0"
edition = "2021"
publish = false

[dependencies]
ink = { version = "=5.0.0", default-features = false, features = ["std"] }
parity-scale-codec = { version = "=3.7.5", default-features = false, features = ["derive", "std"] }
scale-info = { version = "=2.11.6", default-features = false, features = ["derive", "std"] }
