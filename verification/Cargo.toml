[package]
name = "opensovd_cda"
version = "0.1.0"
edition = "2021"
publish = false

[dependencies]
aide = { version = "0.15", features = ["axum", "axum-json", "axum-query", "swagger"] }
async-trait = "0.1"
axum = { version = "0.8", features = ["multipart"] }
axum-extra = { version = "0.12", features = ["with-rejection"] }
figment = { version = "0.10", features = ["toml"] }
http = "1"
percent-encoding = "2"
schemars = "1"
serde = { version = "1", features = ["derive"] }
serde_json = "1"
tokio = { version = "1", features = ["fs", "net", "rt", "sync", "macros"] }
toml = "0.9"
tower = { version = "0.5", features = ["make", "util"] }
tower-http = { version = "0.6", features = ["normalize-path", "trace"] }
tracing = "0.1"
