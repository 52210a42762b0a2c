[package]
name = "uat"
version = "0.1.0"
edition = "2021"
publish = false

[dependencies]
uuid = { version = "=1.29.0", features = ["v4", "serde"] }
sha2 = "=0.10.9"
rand = "=0.8.8"
chrono = { version = "=0.4.45", features = ["serde"] }
serde = { version = "=1.0.229", features = ["derive"] }
serde_json = "=1.0.154"
apistos-schemars = "=0.8.22"
actix-web = "=4.18.1"
apistos = { version = "=0.9.0", features = ["rapidoc", "redoc", "scalar", "swagger-ui", "chrono", "uuid"] }
sqlx = { version = "=0.8.6", default-features = false, features = ["runtime-tokio", "postgres", "chrono", "uuid", "macros"] }
lettre = "=0.11.23"
dotenvy = "=0.15.7"
env_logger = "=0.11.11"
