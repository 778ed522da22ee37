[package]
name = "taskdown_bridge"
version = "0.1.0"
edition = "2021"
publish = false

[dependencies]
rusqlite = { version = "*", features = ["bundled"] }
serde_json = "1"
tauri = { version = "2", default-features = false }
