[package]
name = "rust_desktop"
version = "0.1.0"
edition = "2021"
publish = false

[dependencies]
clap = { version = "=4.6.7", features = ["derive"] }
enigo = "=0.2.1"
serde = { version = "=1.0.229", features = ["derive"] }
serde_json = "=1.0.151"
sysinfo = "=0.32.1"
windows = { version = "=0.57.0", features = ["Win32_Foundation", "Win32_UI_WindowsAndMessaging"] }
