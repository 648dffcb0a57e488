[package]
name = "pi_egl"
version = "0.1.0"
edition = "2021"
publish = false

[dependencies]
glow = "*"
raw-window-handle = "0.6"
winapi = { version = "0.3", features = ["winuser", "wingdi", "libloaderapi", "errhandlingapi", "minwindef", "windef", "ntdef"] }
