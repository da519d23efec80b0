[package]
name = "rustsible"
version = "0.1.0"
edition = "2021"
publish = false

[dependencies]
serde = { version = "1", features = ["derive"] }
serde_json = "1"
dirs = "*"
signal-hook = "0.3"
sysinfo = "0.30"
