[package]
name = "renga_api_rs"
version = "0.1.0"
edition = "2021"
publish = false

[dependencies]
log = "0.4"
semver = "1"
thiserror = "1"
windows = { version = "0.58", features = ["Win32_Foundation", "Win32_System_Com", "Win32_System_Ole", "Win32_System_Variant"] }
