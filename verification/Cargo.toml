[package]
name = "vredditor"
version = "0.1.0"
edition = "2021"
publish = false

[dependencies]
anyhow = "1"
async-trait = "0.1"
base64 = "0.13"
bytes = "1"
env_logger = "0.8"
futures = "0.3"
futures-util = "0.3"
log = "0.4"
pretty_env_logger = "0.4"
prost = "0.7"
rand = "0.7"
reqwest = { version = "0.11", default-features = false, features = ["rustls-tls", "stream"] }
rusoto_core = { version = "0.46", default-features = false, features = ["rustls"] }
rusoto_s3 = { version = "0.46", default-features = false, features = ["rustls"] }
serde = { version = "1", features = ["derive"] }
serde_json = "1"
tokio = { version = "1", features = ["full"] }
tokio-compat-02 = "0.2"
tokio-tungstenite = "0.13"
tungstenite = "0.12"
url = "2"
