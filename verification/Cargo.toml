[package]
name = "hue_bridge"
version = "0.1.0"
edition = "2021"
publish = false

[dependencies]
derive_builder = "=0.12.0"
reqwest = { version = "=0.11.27", features = ["native-tls"] }
serde = { version = "=1.0.229", features = ["derive"] }
serde_json = "=1.0.154"
tokio = { version = "=1.54.1", features = ["fs"] }
url = "=2.5.8"
