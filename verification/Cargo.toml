[package]
name = "tauri_specta"
version = "0.1.0"
edition = "2021"
publish = false

[dependencies]
heck = "0.5"
specta = "=2.0.0-rc.22"
specta-typescript = "0.0.9"
specta-jsdoc = "0.0.9"
