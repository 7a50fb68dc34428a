[package]
name = "ecdict"
version = "0.1.0"
edition = "2021"
publish = false

[dependencies]
autometrics = { version = "0.6", features = ["prometheus-exporter"] }
axum = "0.6"
mimalloc = "0.1"
serde = { version = "1", features = ["derive"] }
serde_json = "1"
sqlx = { version = "0.7", features = ["runtime-tokio", "sqlite"] }
tokio = { version = "1", features = ["macros", "rt-multi-thread"] }
