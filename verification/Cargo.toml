[package]
name = "vodia_pbx_wizard"
version = "1.3.0"
edition = "2021"
publish = false

[dependencies]
regex = "1"
roxmltree = "*"
anyhow = "1"
tokio = { version = "1", features = ["rt-multi-thread", "fs", "io-util"] }
reqwest = { version = "*", default-features = false, features = ["blocking", "rustls-tls"] }
zip = { version = "*", default-features = false, features = ["deflate"] }
tar = "0.4"
flate2 = "1"
walkdir = "2"
windows-sys = { version = "*", features = ["Win32_UI_Shell", "Win32_UI_WindowsAndMessaging", "Win32_Foundation"] }
eframe = { version = "*", default-features = false, features = ["default_fonts", "glow", "x11"] }
image = { version = "*", default-features = false, features = ["png"] }
rfd = "*"
