[package]
name = "anytype"
version = "0.1.0"
edition = "2021"
publish = false
rust-version = "1.95"

[dependencies]
anyhow = "=1.0.104"
clap = { version = "=4.6.7", features = ["derive"] }
nu-protocol = { version = "=0.114.1", default-features = false }
serde = { version = "=1.0.229", features = ["derive"] }
serde_json = "=1.0.154"
typetag = "=0.2.23"
