[package]
name = "poloniex_connect"
version = "0.1.0"
edition = "2021"
publish = false

[dependencies]
url = "*"
form_urlencoded = "*"
hmac = "*"
sha2 = "*"
base64 = "*"
jiff = "*"
serde = { version = "*", features = ["derive"] }
serde_json = "*"
log = "*"
env_logger = "*"
clap = { version = "*", features = ["derive", "env"] }
anyhow = "*"
tokio = { version = "*", features = ["full"] }
tokio-tungstenite = "*"
futures = "*"
reqwest = { version = "*", default-features = false }
mongodb = "*"
