[package]
name = "exit_backup"
version = "0.1.0"
edition = "2021"
publish = false

[dependencies]
chrono = "=0.4.45"
tauri = { version = "=2.12.5", default-features = false, features = ["wry"] }
tauri-plugin-fs = "=2.7.1"
