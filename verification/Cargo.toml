[package]
name = "srvany-rs"
version = "0.1.0"
edition = "2021"
publish = false

[dependencies]
windows = { version = "=0.58.0", features = ["Win32_System_Threading"] }
windows-registry = "=0.100.0"
windows-service = "=0.8.1"
