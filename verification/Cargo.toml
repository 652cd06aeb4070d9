[package]
name = "rustube"
version = "0.1.0"
edition = "2021"
publish = false

[dependencies]
bytes = "1"
chrono = "0.4"
derivative = "2"
log = "0.4"
mime = "0.3"
reqwest = { version = "0.11", default-features = false, features = ["stream"] }
tokio = { version = "1", default-features = false, features = ["fs", "io-util", "rt", "sync"] }
tokio-stream = { version = "0.1", default-features = false }
url = "2"
