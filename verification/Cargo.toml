[package]
name = "wallpaper"
version = "0.1.0"
edition = "2021"
publish = false

[dependencies]
dirs = "*"
enquote = "1"
rust-ini = "*"
reqwest = { version = "*", default-features = false, features = ["blocking"] }
thiserror = "*"
windows-sys = { version = "*", features = ["Win32_Foundation", "Win32_UI_WindowsAndMessaging"] }
winreg = "*"
