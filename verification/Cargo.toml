[package]
name = "cauldron"
version = "0.1.0"
edition = "2021"
publish = false

[dependencies]
semver = "=1.0.28"
log = "=0.4.35"
serde = { version = "=1.0.229", features = ["derive"] }
toml = "=0.8.23"
toml_edit = { version = "=0.22.27", features = ["serde"] }
libloading = "=0.8.9"
simplelog = "=0.12.2"
once_cell = "=1.21.4"
parking_lot = "=0.12.5"
tabled = "=0.17.0"
bitflags = "=2.13.2"
windows-sys = { version = "=0.59.0", features = ["Win32_Foundation", "Win32_System_LibraryLoader", "Win32_System_Console", "Win32_UI_WindowsAndMessaging", "Win32_System_Diagnostics_Debug", "Win32_System_SystemServices", "Win32_System_SystemInformation", "Win32_System_Memory", "Win32_Storage_FileSystem"] }
