[package]
name = "rentamac"
version = "0.1.0"
edition = "2021"
publish = false

[dependencies]
anyhow = "1"
block = "0.1"
bytes = "1"
kcp-sys = "*"
log = "0.4"
objc = "0.2"
tokio = { version = "1", features = ["net", "sync", "time", "rt", "macros"] }
tokio-util = { version = "0.7", features = ["codec"] }
