[package]
name = "indexer"
version = "0.1.0"
edition = "2021"
publish = false

[dependencies]
rust_decimal = "*"
sqlx = { version = "*", default-features = false, features = ["postgres", "runtime-async-std", "rust_decimal"] }
smol = "*"
log = "*"
anyhow = "*"
