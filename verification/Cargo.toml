[package]
name = "tauri_bundler"
version = "0.1.0"
edition = "2021"
publish = false

[dependencies]
semver = "1"
tauri-utils = { version = "1.5", features = ["resources"] }
log = "0.4"
serde = { version = "1", features = ["derive"] }
toml = "0.7"
ureq = "2"
colored = "2"
