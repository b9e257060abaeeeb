[package]
name = "trackfetch"
version = "0.1.0"
edition = "2021"
publish = false

[dependencies]
url = "2.5"
audiotags = "0.5"
reqwest = { version = "0.12", default-features = false }
tokio = { version = "1", default-features = false, features = ["sync"] }
tauri = { version = "2", default-features = false }
