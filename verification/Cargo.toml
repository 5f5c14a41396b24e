[package]
name = "yggdrasilctl"
version = "0.1.0"
edition = "2021"
publish = false

[dependencies]
getopts = "0.2"
serde_json = "1"
tokio = { version = "1", features = ["rt", "net", "io-util", "macros"] }
