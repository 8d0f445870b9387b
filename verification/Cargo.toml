[package]
name = "sysmetrics"
version = "0.1.0"
edition = "2021"
publish = false

[dependencies]
axum = "*"
chrono = "*"
serde = { version = "*", features = ["derive"] }
serde_json = "*"
sysinfo = "*"
tokio = { version = "*", features = ["full"] }
windows = { version = "*", features = ["Win32_Foundation", "Win32_Storage_FileSystem", "Win32_System_Performance"] }
