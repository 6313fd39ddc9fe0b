[package]
name = "arkin-binance"
version = "0.1.0"
edition = "2021"
publish = false

[dependencies]
anyhow = "1"
async-trait = "0.1"
reqwest = { version = "0.12", default-features = false }
rust_decimal = "1"
serde = { version = "1", features = ["derive"] }
serde_json = "1"
typed-builder = "*"
