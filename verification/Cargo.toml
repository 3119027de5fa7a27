[package]
name = "testsmith"
version = "0.1.0"
edition = "2021"
publish = false

[dependencies]
path-clean = "*"
regex = "*"
clap = { version = "*", features = ["derive"] }
serde = { version = "*", features = ["derive"] }
serde_json = "*"
thiserror = "*"
