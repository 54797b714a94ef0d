[package]
name = "brolaunch"
version = "0.2.0"
edition = "2021"
publish = false

[dependencies]
clap = "4"
dirs = "5"
regex = "1"
serde = { version = "1", features = ["derive"] }
serde_yaml = "0.9"
