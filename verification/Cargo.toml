[package]
name = "dsh_config"
version = "0.1.0"
edition = "2021"
publish = false

[dependencies]
serde = { version = "1", features = ["derive"] }
serde_json = "1"
log = "0.4"
tauri = { version = "2", default-features = false }
tauri-plugin-store = { version = "2", default-features = false }
