[package]
name = "keep_audio_awake"
version = "0.1.0"
edition = "2021"
publish = false

[dependencies]
ctrlc = "*"
flexi_logger = "*"
log = "*"
native-windows-gui = "*"
windows = { version = "*", features = ["Win32_Foundation", "Win32_Media", "Win32_Media_Audio", "Win32_Storage_FileSystem", "Win32_System_Threading", "Win32_UI_WindowsAndMessaging"] }
windows-service = "*"
