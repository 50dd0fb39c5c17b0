[package]
name = "hyperip"
version = "0.1.0"
edition = "2021"
publish = false

[dependencies]
clap = { version = "*", features = ["derive"] }
dirs = "*"
powershell_script = "*"
serde_json = "*"
shellexpand = "*"
