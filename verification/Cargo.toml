[package]
name = "playground_core"
version = "0.1.0"
edition = "2021"
publish = false

[dependencies]
log = "=0.4.34"
regex = "=1.13.1"
serde = { version = "=1.0.229", features = ["derive"] }
serde_json = "=1.0.154"
tauri = { version = "=2.12.5", default-features = false }
tauri-plugin-fs = { version = "2", default-features = false }
tauri-plugin-persisted-scope = { version = "2", default-features = false }
tauri-plugin-process = { version = "2", default-features = false }
