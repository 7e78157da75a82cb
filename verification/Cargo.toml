[package]
name = "swach_sampler"
version = "0.1.0"
edition = "2021"
publish = false

[dependencies]
serde_json = "=1.0.154"
x11 = { version = "=2.21.0", features = ["xlib"] }
ashpd = { version = "=0.13.13", default-features = false, features = ["tokio", "screencast", "screenshot"] }
pipewire = "=0.10.1"
tokio = { version = "=1.54.1", features = ["rt", "time"] }
dirs = "=7.0.0"
image = { version = "=0.25.10", default-features = false, features = ["png"] }
core-graphics = "=0.25.0"
windows = { version = "=0.62.2", features = ["Win32_Foundation", "Win32_Graphics_Gdi", "Win32_UI_WindowsAndMessaging"] }
