[package]
name = "tablet_visualizer"
version = "0.1.0"
edition = "2021"
publish = false

[dependencies]
macroquad = "=0.4.16"
miniquad = "=0.4.11"
serde = { version = "=1.0.229", features = ["derive"] }
toml = "=1.1.7"
windows = { version = "=0.58.0", features = ["Win32_Foundation", "Win32_UI_WindowsAndMessaging"] }
