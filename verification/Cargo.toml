[package]
name = "meatshell"
version = "0.1.0"
edition = "2021"
publish = false

[dependencies]
anyhow = "=1.0.104"
russh = { version = "=0.57.1", default-features = false, features = ["ring"] }
thiserror = "=2.0.21"
tokio = { version = "=1.54.1", features = ["io-util", "macros", "net", "rt", "rt-multi-thread", "sync"] }
tracing = "0.1"
uuid = { version = "=1.29.0", features = ["v4"] }
