[package]
name = "ali_bastion"
version = "0.1.0"
edition = "2021"
publish = false

[dependencies]
base64 = "0.22"
clap = { version = "4", features = ["derive"] }
crossterm = "0.28"
dirs = "5"
serde = { version = "1", features = ["derive"] }
serde_json = "1"
