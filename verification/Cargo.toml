[package]
name = "todolist"
version = "0.1.0"
edition = "2021"
publish = false

[dependencies]
dirs = "*"
serde = { version = "1", features = ["derive"] }
serde_json = { version = "1", features = ["preserve_order"] }
tauri = { version = "2", default-features = false }
tauri-plugin-autostart = "2"
