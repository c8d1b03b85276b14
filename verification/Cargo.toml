[package]
name = "monk3i"
version = "0.1.0"
edition = "2021"

[dependencies]
dirs = "6"
futures-util = "0.3"
percent-encoding = "2"
reqwest = { version = "0.12", default-features = false, features = ["rustls-tls", "stream"] }
serde = { version = "1", features = ["derive"] }
serde_json = "1"
tokio = { version = "1", features = ["fs", "io-util", "macros", "process", "rt", "time"] }
