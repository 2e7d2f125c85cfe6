[package]
name = "cryptor"
version = "0.1.0"
edition = "2021"
publish = false

[dependencies]
nacl = "*"
dashmap = "*"
tokio = { version = "*", features = ["rt-multi-thread"] }
