[package]
name = "thrindex"
version = "0.3.0"
edition = "2021"
publish = false

[dependencies]
base64 = "0.22"
crc32fast = "1"
sha2 = "0.10"
serde = { version = "1", features = ["derive"] }
serde_json = "1"
clap = { version = "4", features = ["derive"] }
rayon = "1"
