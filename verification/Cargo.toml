[package]
name = "nirix"
version = "0.1.0"
edition = "2021"
publish = false

[dependencies]
tokio = { version = "1", features = ["sync", "macros", "rt-multi-thread"] }
zbus = "5"
async-process = "2"
anyhow = "1"
dirs = "6"
