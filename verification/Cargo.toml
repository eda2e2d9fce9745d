[package]
name = "bs2"
version = "0.1.0"
edition = "2021"
publish = false

[dependencies]
serde = { version = "1", features = ["derive"] }
toml = "*"
fs_extra = "*"
tracing = "*"
tracing-subscriber = "*"
libloading = "*"
winapi = { version = "0.3", features = ["minwindef", "ntdef", "libloaderapi", "stringapiset", "processenv"] }
windows-sys = { version = "*", features = ["Win32_UI_WindowsAndMessaging", "Win32_Foundation"] }
