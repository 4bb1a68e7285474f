[package]
name = "cis4_client"
version = "0.1.0"
edition = "2021"
publish = false

[dependencies]
concordium_base = "*"
chrono = "*"
futures = "*"
serde = "*"
rust_decimal = "*"
