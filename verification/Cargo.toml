[package]
name = "fusioncord_core"
version = "0.1.0"
edition = "2021"
publish = false

[dependencies]
serde = "*"
serde_json = "*"
twilight-model = "*"
tokio = { version = "*", features = ["full"] }
tokio-tungstenite = { version = "*", features = ["rustls-tls-webpki-roots"] }
futures-util = "*"
thiserror = "*"
tracing = "*"
tracing-subscriber = "*"
