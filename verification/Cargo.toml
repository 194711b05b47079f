[package]
name = "modsync"
version = "0.1.0"
edition = "2021"
publish = false

[dependencies]
md5 = "*"
futures = "*"
reqwest = { version = "*", default-features = false, features = ["stream"] }
serde = { version = "*", features = ["derive"] }
serde_json = "*"
tokio = { version = "*", features = ["rt-multi-thread", "macros", "fs", "io-util"] }
tokio-util = { version = "*", features = ["codec", "io"] }
