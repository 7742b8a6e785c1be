[package]
name = "bt-hci"
version = "0.1.0"
edition = "2021"
publish = false

[dependencies]
embedded-io = "0.6"
embedded-io-async = "0.6"
embassy-sync = "0.6"
embassy-time = "0.4"
futures-intrusive = { version = "0.5", default-features = false }
serde = { version = "1", features = ["derive"] }
serde_yaml = "0.9"
walkdir = "2"
git2 = { version = "0.19", default-features = false }
