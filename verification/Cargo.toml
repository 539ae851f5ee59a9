[package]
name = "app_shell"
version = "0.1.0"
edition = "2021"
publish = false

[dependencies]
log = "0.4"
tauri-plugin-deep-link = "0.1"
tauri-utils = "1"
