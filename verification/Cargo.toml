[package]
name = "streamlocker_player"
version = "0.1.0"
edition = "2021"
publish = false

[dependencies]
jni = { version = "0.21", features = ["invocation"] }
log = "0.4"
serde = { version = "1", features = ["derive"] }
serde_json = "1"
tauri = { version = "2", default-features = false }
