[package]
name = "glazewm"
version = "0.1.0"
edition = "2021"
publish = false

[dependencies]
anyhow = "1"
auto-launch = "0.5"
clap = { version = "4.5", features = ["derive"] }
futures-util = "0.3"
home = "0.5"
image = { version = "=0.25.10", default-features = false, features = ["png"] }
serde_json = "1"
tokio = { version = "1", features = ["full"] }
tokio-tungstenite = "=0.30.0"
tracing = "0.1"
tracing-appender = "0.2"
tracing-subscriber = "0.3"
tray-icon = { version = "=0.26.1", default-features = false, features = ["ksni"] }
uuid = { version = "=1.29.0", features = ["v4"] }
windows = { version = "=0.52.0", features = [
  "Win32_Foundation",
  "Win32_Graphics_Dwm",
  "Win32_Graphics_Gdi",
  "Win32_Security",
  "Win32_System_Com",
  "Win32_System_LibraryLoader",
  "Win32_System_Threading",
  "Win32_UI_Accessibility",
  "Win32_UI_Input_KeyboardAndMouse",
  "Win32_UI_Shell",
  "Win32_UI_WindowsAndMessaging",
] }
