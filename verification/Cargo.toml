[package]
name = "arweave_host"
version = "0.1.0"
edition = "2021"
publish = false

[dependencies]
anyhow = "1"
arc-swap = "1"
axum = "=0.7.9"
axum-server = { version = "0.7", features = ["tls-rustls-no-provider"] }
brotli = "=7.0.0"
chrono = { version = "=0.4.45", features = ["serde"] }
dotenv = "0.15"
flate2 = "=1.1.10"
http = "=1.5.0"
reqwest = { version = "=0.12.28", default-features = false, features = ["json", "rustls-tls"] }
serde = { version = "1", features = ["derive"] }
serde_json = "=1.0.154"
sysinfo = "=0.30.13"
tokio = { version = "1", features = ["full"] }
tower-http = { version = "=0.5.2", features = ["set-header"] }
tracing = "0.1"
tracing-appender = "0.2"
tracing-subscriber = { version = "0.3", features = ["env-filter", "json"] }
zip = "=2.6.1"
