[package]
name = "weatherflow_mqtt"
version = "0.1.0"
edition = "2021"
publish = false

[dependencies]
serde_json = "=1.0.154"
serde = { version = "=1.0.229", features = ["derive"] }
serde_yaml = "=0.9.34"
tokio = { version = "=1.54.1", features = ["full"] }
rumqttc = "=0.25.1"
tokio-tungstenite = { version = "=0.26.2", features = ["rustls-tls-webpki-roots"] }
futures = "=0.3.34"
futures-util = "=0.3.34"
reqwest = { version = "=0.12.28", default-features = false, features = ["rustls-tls"] }
bytes = "=1.12.1"
getopts = "=0.2.24"
log = "=0.4.35"
simple_logger = "=5.2.0"
