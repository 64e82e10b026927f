[package]
name = "menu_bridge"
version = "0.1.0"
edition = "2021"
publish = false

[dependencies]
tauri = { version = "2", default-features = false }
tauri-plugin-process = "2"
