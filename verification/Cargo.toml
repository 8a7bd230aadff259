[package]
name = "deploytix"
version = "0.1.0"
edition = "2021"
publish = false

[dependencies]
fuzzy-matcher = "0.3"
uuid = { version = "1", features = ["v4"] }
serde = { version = "1", features = ["derive"] }
serde_json = "1"
toml = "0.8"
clap = { version = "4", features = ["derive"] }
nix = { version = "0.29", features = ["user", "fs"] }
libc = "0.2"
thiserror = "1"
tracing = "0.1"
tracing-subscriber = "0.3"
