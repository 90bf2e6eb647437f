[package]
name = "tonic_indexer"
version = "0.1.0"
edition = "2021"
publish = false

[dependencies]
serde_json = "=1.0.151"
bs58 = "=0.5.1"
chrono = "0.4"
clap = { version = "4", features = ["derive"] }
anyhow = "1"
rand = "0.8"
serde = { version = "1", features = ["derive"] }
