[package]
name = "indexer_facade"
version = "0.1.0"
edition = "2021"
publish = false

[dependencies]
anyhow = "=1.0.104"
async-trait = "=0.1.92"
fastcrypto = "=0.1.11"
futures = "=0.3.34"
jsonrpsee = { version = "=0.16.3", features = ["http-client", "server-core"] }
rand = "=0.8.8"
serde = { version = "=1.0.229", features = ["derive"] }
serde_json = "=1.0.154"
tracing = "=0.1.44"
