[package]
name = "arti_bridge"
version = "0.1.0"
edition = "2021"
publish = false

[dependencies]
anyhow = "1"
lazy_static = "1"
log = "0.4"
tokio = { version = "1", features = ["rt-multi-thread", "sync"] }
tor-config = "0.47"
tor-rtcompat = { version = "0.47", features = ["tokio", "native-tls"] }
