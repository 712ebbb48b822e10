[package]
name = "tauri_egui"
version = "0.1.0"
edition = "2021"
publish = false

[dependencies]
rand = "=0.8.8"
epi = { version = "=0.17.0", default-features = false }
egui_glow = { version = "=0.17.0", default-features = false }
glow = "=0.11.2"
gtk = "=0.15.5"
tauri-runtime = "=0.10.0"
tauri-runtime-wry = { version = "=0.10.0", default-features = false }
