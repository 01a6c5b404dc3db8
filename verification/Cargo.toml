[package]
name = "history_core"
version = "0.1.0"
edition = "2021"
publish = false

[dependencies]
regex = "1"
actix-web = "4"
actix-cors = "0.7"
tokio = { version = "1", features = ["full"] }
serde = { version = "1", features = ["derive"] }
serde_json = "1"
elasticsearch = "=8.5.0-alpha.1"
sqlx = { version = "0.8", default-features = false, features = ["runtime-tokio", "postgres", "chrono"] }
redis = { version = "0.27", features = ["tokio-comp"] }
chrono = { version = "0.4", features = ["serde"] }
tracing = "0.1"
tracing-subscriber = { version = "0.3", features = ["env-filter"] }
tracing-actix-web = "0.7"
utoipa = { version = "4", features = ["actix_extras"] }
async-trait = "0.1"
thiserror = "1"
