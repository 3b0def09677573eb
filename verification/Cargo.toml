[package]
name = "code_management_backend"
version = "0.1.0"
edition = "2021"
publish = false

[dependencies]
axum = { version = "=0.8.9", features = ["ws"] }
chrono = { version = "=0.4.45", features = ["serde"] }
config = { version = "=0.15.27", default-features = false, features = ["toml"] }
futures = "=0.3.34"
git2 = "=0.20.4"
jsonwebtoken = "=9.3.1"
lazy_static = "=1.5.1"
r2d2 = "=0.8.10"
redis = { version = "=0.27.6", features = ["r2d2"] }
serde = { version = "=1.0.229", features = ["derive"] }
serde_json = "=1.0.154"
sqlx = { version = "=0.8.6", default-features = false, features = ["postgres", "runtime-tokio", "macros", "derive", "chrono"] }
tokio = { version = "=1.54.1", features = ["full"] }
tower = "=0.5.3"
tower-http = { version = "=0.6.11", features = ["cors", "trace"] }
tracing = "=0.1.44"
tracing-subscriber = "=0.3.23"
validator = { version = "=0.20.0", features = ["derive"] }
