[package]
name = "finova"
version = "0.1.0"
edition = "2021"
publish = false

[dependencies]
solana-program = "1.18"
hex = "0.4"
chrono = "0.4"
rand = "0.8"
anyhow = "1"
serde = { version = "1", features = ["derive"] }
