[package]
name = "agentgateway_mcp"
version = "0.1.0"
edition = "2021"
publish = false

[dependencies]
aes-gcm = "0.10"
axum-core = "*"
base64 = "0.22"
http = "1"
prometheus-client = "*"
rand = "0.9"
rmcp = { version = "*", default-features = false }
serde = { version = "1", features = ["derive"] }
serde_json = "1"
thiserror = "2"
url = "2"
