[package]
name = "metadata_wrapper"
version = "0.1.0"
edition = "2021"
publish = false

[dependencies]
mpl-token-metadata = "=5.1.1"
solana-program = "=2.3.0"
spl-token = "=9.0.0"
borsh = { version = "=1.8.1", features = ["derive"] }
