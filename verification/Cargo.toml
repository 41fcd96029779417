[package]
name = "client_identity"
version = "0.1.0"
edition = "2021"
publish = false

[dependencies]
uuid = { version = "1", features = ["v7"] }
tauri = { version = "2", default-features = false }
tauri-plugin-os = "2"
reqwest = { version = "0.12", default-features = false }
