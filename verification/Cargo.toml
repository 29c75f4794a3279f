[package]
name = "studio_shell"
version = "0.1.0"
edition = "2021"
publish = false

[dependencies]
tauri = { version = "2", default-features = false, features = ["wry"] }
tauri-plugin-fs = { version = "2", default-features = false }
tauri-plugin-store = { version = "2", default-features = false }
tauri-plugin-window-state = { version = "2", default-features = false }
uuid = { version = "1", default-features = false, features = ["std", "v4"] }
winreg = { version = "*", default-features = false }
