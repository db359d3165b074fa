[package]
name = "payroll_ingest"
version = "0.1.0"
edition = "2021"
publish = false

[dependencies]
xml-rs = "0.8"
sql-builder = "3"
chrono = "0.4"
serde = { version = "1", features = ["derive"] }
serde_json = "1"
log = "0.4"
thiserror = "1"
lazy_static = "1"
envconfig = "0.10"
tokio = { version = "1", features = ["full"] }
axum = { version = "0.6", features = ["multipart"] }
hyper = { version = "0.14", features = ["full"] }
hyper-tls = "0.5"
tower-http = { version = "0.4", features = ["cors"] }
sqlx = { version = "0.6", features = ["mysql", "runtime-tokio-native-tls"] }
