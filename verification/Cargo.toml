[package]
name = "screen_recorder"
version = "0.1.0"
edition = "2021"
publish = false

[dependencies]
chrono = "0.4"
regex = "1"
lazy_static = "1"
tokio = { version = "1", features = ["process", "sync", "io-util", "macros", "rt-multi-thread"] }
tauri = { version = "2", default-features = false }
tauri-plugin-fs = "2"
