[package]
name = "spl_risk"
version = "0.1.0"
edition = "2021"
publish = false

[dependencies]
clap = { version = "*", default-features = false, features = ["std", "derive", "help", "usage", "error-context"] }
colored = "*"
serde = { version = "*", features = ["derive"] }
serde_json = "*"
solana-commitment-config = "=3.1.1"
solana-pubkey = "=3.0.0"
solana-rpc-client = { version = "=3.1.14", default-features = false }
solana-rpc-client-api = "=3.1.14"
tokio = { version = "*", features = ["rt-multi-thread", "macros", "time"] }
