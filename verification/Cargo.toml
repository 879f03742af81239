[package]
name = "palangrotte"
version = "0.1.0"
edition = "2021"
publish = false

[dependencies]
chrono = "0.4"
filetime = "0.2"
notify = "6"
rand = "0.8"
reqwest = { version = "0.12", default-features = false, features = ["json", "rustls-tls"] }
ring = "0.17"
rpassword = "7"
serde = { version = "1", features = ["derive"] }
system_shutdown = "4"
tokio = { version = "1", features = ["macros", "rt-multi-thread"] }
toml = "0.8"
windows-sys = { version = "0.59", features = ["Win32_Foundation", "Win32_System_RemoteDesktop", "Win32_UI_WindowsAndMessaging"] }
