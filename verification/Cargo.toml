[package]
name = "browser_host"
version = "0.1.0"
edition = "2021"
publish = false

[dependencies]
url = "2"
urlencoding = "2"
tauri = { version = "2", default-features = false, features = ["unstable"] }
tokio = { version = "1", default-features = false, features = ["time"] }
