[package]
name = "ficus"
version = "0.1.0"
edition = "2021"
publish = false

[dependencies]
sha2 = "0.10"
hex = "0.4"
uuid = { version = "1", features = ["v4", "serde"] }
chrono = { version = "0.4", features = ["serde"] }
rand = "0.8"
serde = { version = "1", features = ["derive"] }
serde_json = "1"
async-trait = "0.1"
axum = "0.8"
tokio = { version = "1", features = ["full"] }
tokio-stream = { version = "0.1", features = ["sync"] }
futures = "0.3"
dashmap = "6"
tracing = "0.1"
thiserror = "2"
tower-http = { version = "0.6", features = ["cors", "limit", "set-header", "trace"] }
utoipa = { version = "5", features = ["uuid", "chrono"] }
metrics = "0.24"
metrics-exporter-prometheus = { version = "0.16", default-features = false }
sea-orm = { version = "1", default-features = false, features = ["macros", "with-chrono", "with-uuid", "with-json", "sqlx-postgres", "runtime-tokio-rustls"] }
sqlx = { version = "0.8", default-features = false, features = ["runtime-tokio", "postgres"] }
