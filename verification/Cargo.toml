[package]
name = "task_api"
version = "0.1.0"
edition = "2021"
publish = false

[dependencies]
axum = "=0.8.9"
chrono = "=0.4.45"
dotenvy = "=0.15.7"
jsonwebtoken = "=10.4.0"
jwks = "=0.5.3"
sea-orm = { version = "=1.1.20", default-features = false, features = ["macros", "with-chrono", "sqlx-sqlite", "sqlx-postgres", "runtime-tokio-rustls"] }
serde = { version = "=1.0.229", features = ["derive"] }
thiserror = "=2.0.21"
tokio = { version = "=1.54.1", features = ["full"] }
tower-http = { version = "=0.6.11", features = ["cors"] }
