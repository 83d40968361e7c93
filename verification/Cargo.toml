[package]
name = "native_dialog"
version = "0.1.0"
edition = "2021"
publish = false

[dependencies]
osascript = "=0.3.0"
serde = { version = "=1.0.229", features = ["derive"] }
wfd = "*"
