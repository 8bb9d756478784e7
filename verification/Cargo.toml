[package]
name = "backend_rust"
version = "0.1.0"
edition = "2021"
publish = false

[dependencies]
chrono = "0.4"
uuid = { version = "1", features = ["v4"] }
serde = { version = "1", features = ["derive"] }
serde_json = "1"
axum = "0.7"
tokio = { version = "1", features = ["full"] }
tracing = "0.1"
tracing-subscriber = "0.3"
tower-http = { version = "0.5", features = ["cors"] }
redis = { version = "0.25", features = ["tokio-comp"] }
deadpool-redis = "0.15"
sea-orm = { version = "0.12", default-features = false, features = ["macros", "with-chrono", "with-rust_decimal"] }
bcrypt = "0.15"
jsonwebtoken = "9"
lettre = { version = "0.11", default-features = false, features = ["builder", "smtp-transport", "tokio1", "tokio1-rustls-tls", "hostname"] }
lapin = "2"
futures-util = "0.3"
async-trait = "0.1"
utoipa = "4"
