[package]
name = "rizzo_pii"
version = "1.0.0"
edition = "2021"
publish = false

[dependencies]
dirs = "6"
serde_json = "1"
tauri = { version = "2", default-features = false, features = ["wry"] }
