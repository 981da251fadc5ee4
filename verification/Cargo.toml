[package]
name = "voice_keyboard"
version = "0.1.0"
edition = "2021"
publish = false

[dependencies]
anyhow = "=1.0.104"
directories = "=6.0.0"
global-hotkey = "=0.8.0"
iced = { version = "=0.14.0", default-features = false, features = [
    "tiny-skia",
    "crisp",
    "web-colors",
    "thread-pool",
    "linux-theme-detection",
    "x11",
    "wayland",
] }
rodio = { version = "=0.22.2", default-features = false }
serde = { version = "=1.0.229", features = ["derive"] }
serde_json = "=1.0.151"
