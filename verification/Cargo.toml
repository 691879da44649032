[package]
name = "counter_store"
version = "0.1.0"
edition = "2021"
publish = false

[dependencies]
rusqlite = { version = "*", features = ["bundled"] }
tauri = { version = "2", default-features = false }

[dev-dependencies]
tempfile = "3"
