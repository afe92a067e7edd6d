[package]
name = "instant_folio"
version = "0.1.0"
edition = "2021"
publish = false

[dependencies]
solana-program = "=2.3.0"
borsh = { version = "=1.8.1", features = ["derive"] }
thiserror = "=1.0.69"
