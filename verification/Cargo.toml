[package]
name = "rawinput"
version = "0.1.0"
edition = "2021"
publish = false

[dependencies]
widestring = "0.4"
winapi = { version = "0.3", features = ["winuser", "windef", "minwindef", "libloaderapi"] }
kernel32-sys = "0.2"
user32-sys = "0.2"
