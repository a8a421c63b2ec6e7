[package]
name = "clash-verge"
version = "0.1.0"
edition = "2021"
publish = false

[dependencies]
anyhow = "1"
tauri = { version = "2", default-features = false, features = ["wry", "tray-icon", "image-ico", "image-png"] }
