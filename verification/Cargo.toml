[package]
name = "sinogi"
version = "0.1.0"
edition = "2021"
publish = false

[dependencies]
tauri = { version = "=2.12.1", default-features = false }
tauri-plugin-store = "=2.5.0"
