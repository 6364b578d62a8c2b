[package]
name = "bdk_cli"
version = "0.1.0"
edition = "2021"
publish = false

[dependencies]
bdk_wallet = { version = "=3.2.0", features = ["keys-bip39", "rusqlite"] }
bdk_redb = "=0.2.0"
clap = { version = "=4.6.7", features = ["derive"] }
cli-table = "=0.5.0"
serde = { version = "=1.0.229", features = ["derive"] }
serde_json = "=1.0.154"
toml = "=1.1.8"
