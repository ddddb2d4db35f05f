[package]
name = "oneko"
version = "0.1.0"
edition = "2021"
publish = false

[dependencies]
image = { version = "0.25", default-features = false, features = ["gif"] }
rand = "0.8"
softbuffer = "0.4"
tracing = "0.1"
tracing-subscriber = { version = "0.3", features = ["env-filter"] }
windows = { version = "0.58", features = ["Win32_Foundation", "Win32_UI_WindowsAndMessaging"] }
winit = "0.30"
x11rb = { version = "0.13", features = ["allow-unsafe-code"] }
