[package]
name = "skywallpaper"
version = "0.1.0"
edition = "2021"
publish = false

[dependencies]
anyhow = "=1.0.104"
chrono = "=0.4.45"
serde = { version = "=1.0.229", features = ["derive"] }
serde_json = "=1.0.154"
thiserror = "=2.0.21"
tray-icon = "0.21"
toml = "=0.8.23"
ureq = "=3.5.1"
windows = { version = "=0.62.2", features = ["Win32_Foundation", "Win32_Security", "Win32_Graphics_Gdi", "Win32_UI_WindowsAndMessaging", "Win32_System_LibraryLoader", "Win32_System_Power", "Win32_System_Registry", "Win32_Globalization", "Win32_System_Threading"] }
