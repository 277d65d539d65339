[package]
name = "kiro_switch"
version = "0.1.0"
edition = "2021"
publish = false

[dependencies]
log = "=0.4.35"
reqwest = { version = "=0.12.28", default-features = false, features = ["json", "rustls-tls"] }
serde_json = "=1.0.154"
tokio = { version = "=1.54.1", features = ["macros", "rt", "rt-multi-thread", "sync", "time"] }
urlencoding = "=2.1.3"
uuid = { version = "=1.29.0", features = ["v4"] }
