[package]
name = "dpp_contract"
version = "0.2.0"
edition = "2021"
publish = false

[dependencies]
ink = { version = "6.0.0-alpha", default-features = false }
parity-scale-codec = { version = "3", default-features = false, features = ["derive"] }
scale-info = { version = "2", default-features = false, features = ["derive"] }
