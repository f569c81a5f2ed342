[package]
name = "azure_app_exporter"
version = "0.1.0"
edition = "2021"
publish = false

[dependencies]
axum = "=0.7.9"
axum-extra = { version = "=0.9.6", features = ["typed-header", "erased-json"] }
axum-server = { version = "0.8", features = ["tls-rustls-no-provider"] }
chrono = { version = "=0.4.45", features = ["serde"] }
humantime-serde = "=1.1.1"
metrics = "=0.22.4"
metrics-exporter-prometheus = { version = "=0.13.1", default-features = false }
metrics-process = "=1.2.1"
metrics-util = "=0.16.3"
reqwest = { version = "=0.11.27", default-features = false, features = ["json", "rustls-tls"] }
rustls = { version = "0.23", default-features = false, features = ["ring", "logging", "std", "tls12"] }
rustls-pemfile = "=2.2.0"
serde = { version = "=1.0.229", features = ["derive"] }
serde_json = "=1.0.154"
tokio = { version = "=1.54.1", features = ["full"] }
toml = "=0.8.23"
tracing = "=0.1.44"
tracing-subscriber = { version = "=0.3.23", features = ["env-filter", "json"] }
utoipa = { version = "=4.2.3", features = ["axum_extras", "chrono"] }
utoipa-swagger-ui = { version = "=6.0.0", features = ["axum"] }
