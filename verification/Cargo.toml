[package]
name = "wallet_persister"
version = "0.1.0"
edition = "2021"
publish = false

[dependencies]
bdk_wallet = { version = "=2.4.0", features = ["rusqlite"] }
bdk_redb = "=0.1.1"
thiserror = "=2.0.21"

[dev-dependencies]
redb = "=2.6.4"
