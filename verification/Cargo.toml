[package]
name = "shadertoy_client"
version = "0.1.0"
edition = "2021"
publish = false

[dependencies]
reqwest = { version = "0.11", features = ["json"] }
serde = { version = "1", features = ["derive"] }
serde_json = "1"
windows = { version = "0.39", features = ["Win32_Foundation", "Win32_UI_WindowsAndMessaging"] }
