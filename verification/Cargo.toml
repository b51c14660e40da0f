[package]
name = "wry"
version = "0.1.0"
edition = "2021"
publish = false

[dependencies]
http = "=0.2.12"
log = "=0.4.34"
raw-window-handle = "=0.5.2"
surfman = "=0.14.0"
tao = "=0.15.8"
url = "=2.5.8"
webview2-com = "=0.19.1"
windows-implement = "=0.39.0"

[dependencies.windows]
version = "=0.39.0"
features = [
  "implement",
  "Win32_Foundation",
  "Win32_Graphics_Gdi",
  "Win32_System_Com",
  "Win32_System_Com_StructuredStorage",
  "Win32_System_Ole",
  "Win32_System_SystemServices",
  "Win32_UI_Shell",
  "Win32_UI_WindowsAndMessaging",
]
