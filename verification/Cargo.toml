[package]
name = "wallspan"
version = "0.1.0"
edition = "2021"
publish = false

[dependencies]
image = { version = "=0.25.10", default-features = false, features = ["png", "jpeg", "bmp"] }
rfd = "=0.15.4"
winapi = { version = "=0.3.9", features = ["winuser"] }
winit = "=0.29.15"
winreg = "=0.52.0"
