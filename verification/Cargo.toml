[package]
name = "player_bridge"
version = "0.1.0"
edition = "2021"
publish = false

[dependencies]
serde_json = "=1.0.154"
tauri = { version = "=2.12.5", default-features = false, features = ["wry"] }
libmpv2 = "=6.0.0"
cocoa = "=0.27.0"
objc = "=0.2.7"
