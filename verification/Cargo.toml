[package]
name = "polygon_client"
version = "0.1.0"
edition = "2021"
publish = false

[dependencies]
futures-util = "0.3"
reqwest = { version = "0.11", features = ["json"] }
serde = { version = "1", features = ["derive"] }
thiserror = "1"
tokio = { version = "1", features = ["net"] }
tokio-tungstenite = { version = "0.21", features = ["native-tls"] }
url = "2"

[dev-dependencies]
serde_json = "1"
