[package]
name = "vibe_island"
version = "0.1.0"
edition = "2021"
publish = false

[dependencies]
chrono = "=0.4.45"
uuid = "=1.29.0"
getrandom = "=0.4.3"
serde = { version = "=1.0.229", features = ["derive"] }
serde_json = "=1.0.154"
dirs = "=7.0.0"
tokio = { version = "=1.54.1", features = ["sync"] }
tauri = { version = "=2.12.5", default-features = false }
