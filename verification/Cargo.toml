[package]
name = "account_management_service"
version = "0.1.0"
edition = "2021"
publish = false

[dependencies]
async-trait = "=0.1.92"
axum = "=0.8.9"
base64 = "=0.22.1"
chrono = { version = "=0.4.45", features = ["serde"] }
cqrs-es = "=0.5.0"
dotenvy = "=0.15.7"
email_address = "=0.2.9"
hex = "=0.4.3"
percent-encoding = "=2.3.2"
postgres-es = "=0.5.0"
rand = "=0.9.5"
serde = { version = "=1.0.229", features = ["derive"] }
serde_json = "=1.0.154"
sha2 = "=0.10.9"
sqlx = { version = "=0.8.6", default-features = false, features = ["postgres", "runtime-tokio", "uuid", "chrono", "json"] }
thiserror = "=2.0.21"
tokio = { version = "=1.54.1", features = ["full"] }
tracing = "=0.1.44"
tracing-subscriber = "=0.3.23"
uuid = { version = "=1.29.0", features = ["v4", "serde"] }
