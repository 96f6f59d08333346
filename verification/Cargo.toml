[package]
name = "fountain_export"
version = "0.1.0"
edition = "2021"
publish = false

[dependencies]
flutter_rust_bridge = "2"
serde_json = "1"
