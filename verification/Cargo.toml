[package]
name = "mcvcli"
version = "0.1.0"
edition = "2021"
publish = false

[dependencies]
sysinfo = "*"
ipipe = "*"
rand = "*"
serde = { version = "*", features = ["derive"] }
serde_json = "*"
