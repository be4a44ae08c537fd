[package]
name = "blob_indexer"
version = "0.1.0"
edition = "2021"
publish = false

[dependencies]
serde_json = "1"
backoff = "0.4"
tracing = "0.1"
anyhow = "1"
