[package]
name = "headset_battery_indicator"
version = "0.1.0"
edition = "2021"
publish = false

[dependencies]
sys-locale = "0.3"
image = { version = "0.25", default-features = false, features = ["png"] }
anyhow = "1"
log = "0.4"
dirs = "*"
serde = { version = "1", features = ["derive"] }
winreg = { version = "*", features = ["serialization-serde"] }
tray-icon = "*"
winit = "0.30"
softbuffer = "*"
tiny-skia = "*"
svgtypes = "*"
font-kit = "*"
pathfinder_geometry = "*"
win32_notif = "*"
windows = { version = "*", features = ["Win32_Foundation", "Win32_System_LibraryLoader", "Win32_System_Com", "Win32_UI_Shell", "Win32_UI_Shell_PropertiesSystem", "Win32_Storage_EnhancedStorage", "Win32_System_Com_StructuredStorage", "Win32_System_Variant"] }
