[package]
name = "meta_store"
version = "0.1.0"
edition = "2021"
publish = false

[dependencies]
sha2 = "=0.10.9"
rusqlite = { version = "=0.41.1", features = ["bundled"] }
serde_json = "1"
same-file = "1"
