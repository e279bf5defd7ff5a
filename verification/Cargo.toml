[package]
name = "fast_tts"
version = "0.1.0"
edition = "2021"
publish = false

[dependencies]
anyhow = "=1.0.104"
base64 = "=0.23.1"
jsonwebtoken = "=9.3.1"
serde = { version = "=1.0.229", features = ["derive"] }
serde_json = "=1.0.151"
serde_yaml = "=0.9.34"
reqwest = { version = "=0.12.28", default-features = false, features = ["json", "rustls-tls"] }
tokio = { version = "=1.53.2", features = ["rt-multi-thread", "macros"] }
clap = { version = "=4.6.7", features = ["derive"] }
dirs = "=7.0.0"
aws-config = { version = "=1.12.0", default-features = false, features = ["rt-tokio", "legacy-client", "sso"] }
aws-sdk-polly = { version = "=1.122.0", default-features = false, features = ["http-1x", "legacy-https-client", "rt-tokio"] }
axum = "*"
futures = "*"
mcp-server = "*"
mcp-spec = "*"
tokio-stream = "*"
tower-service = "*"
