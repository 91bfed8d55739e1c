[package]
name = "junk_cleaner"
version = "0.1.0"
edition = "2021"
publish = false

[dependencies]
byte-unit = "5"
walkdir = "2"
winreg = "0.55"
windows-sys = { version = "0.59", features = ["Win32_Foundation", "Win32_System_ProcessStatus", "Win32_System_Threading"] }
native-windows-gui = "1.0"
native-windows-derive = "1.0"
