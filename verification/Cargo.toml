[package]
name = "funding_arb"
version = "0.1.0"
edition = "2021"
publish = false

[dependencies]
solana-program = "=5.1.0"
clap = { version = "=4.6.7", features = ["derive"] }
lazy_static = "=1.5.1"
thiserror = "=2.0.21"
