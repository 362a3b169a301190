[package]
name = "pollnet"
version = "0.1.0"
edition = "2021"
publish = false

[dependencies]
tokio = { version = "1", features = ["full"] }
tokio-tungstenite = { version = "0.17" }
tungstenite = { version = "0.17" }
futures = { version = "0.3" }
futures-util = { version = "0.3" }
url = { version = "2" }
log = { version = "0.4" }
env_logger = { version = "0.9" }
hyper = { version = "0.14", features = ["full"] }
hyper-staticfile = { version = "0.9" }
http = { version = "0.2" }
reqwest = { version = "0.11", default-features = false, features = ["rustls-tls"] }
nanoid = { version = "0.4" }
