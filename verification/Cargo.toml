[package]
name = "tauri-plugin-thumbnail"
version = "0.1.0"
edition = "2021"
publish = false

[dependencies]
image = { version = "=0.25.10", default-features = false, features = ["png", "jpeg", "webp", "gif", "bmp"] }
infer = "=0.16.0"
md5 = "=0.7.0"
id3 = "=1.17.2"
url = "=2.5.8"
home = "=0.5.12"
log = "=0.4.35"
serde = { version = "=1.0.229", features = ["derive"] }
tauri = { version = "=2.12.5", default-features = false }
windows = { version = "=0.62.2", features = ["Win32_Foundation", "Win32_Graphics_Gdi", "Win32_System_Com", "Win32_UI_Shell"] }
