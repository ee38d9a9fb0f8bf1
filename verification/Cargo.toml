[package]
name = "webview2_callback"
version = "0.1.0"
edition = "2021"

[dependencies]
windows = { version = "=0.59.0", features = ["Win32_System_Com"] }
windows-core = "=0.59.0"
