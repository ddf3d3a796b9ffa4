[package]
name = "walrus_fuzz"
version = "0.1.0"
edition = "2021"
publish = false

[dependencies]
anyhow = "1"
rand = { version = "0.8", features = ["small_rng"] }
tempfile = "3"
walrus = "*"
