[package]
name = "mercy"
version = "0.1.0"
edition = "2021"
publish = false

[dependencies]
base64 = "0.13"
md5 = "0.7"
sha2 = "0.10"
hexdump = "0.1"
serde_json = "1"
sys-info = "0.9"
reqwest = { version = "0.11", default-features = false }
tokio = { version = "1", features = ["rt-multi-thread", "macros"] }
