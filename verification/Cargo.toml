[package]
name = "ciconia"
version = "0.1.0"
edition = "2021"
publish = false

[dependencies]
shell-escape = "0.1"
uuid = "1"
anyhow = "1"
log = "0.4"
serde = { version = "1", features = ["derive"] }
serde_json = "1"
tokio = { version = "1", features = ["rt-multi-thread", "net", "io-util", "sync", "time", "macros"] }
tokio-util = "0.7"
russh = "*"
