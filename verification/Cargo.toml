[package]
name = "erp_v2"
version = "0.1.0"
edition = "2021"
publish = false

[dependencies]
rust_decimal = "1"
uuid = { version = "1", features = ["v4"] }
chrono = "0.4"
serde = { version = "1", features = ["derive"] }
serde_json = "1"
sqlx = { version = "0.8", default-features = false, features = ["runtime-tokio", "sqlite", "derive", "chrono", "uuid"] }
axum = "0.8"
tower = "0.5"
tower-http = { version = "0.6", features = ["cors", "trace", "request-id", "util"] }
tokio = { version = "1", features = ["rt-multi-thread", "macros"] }
