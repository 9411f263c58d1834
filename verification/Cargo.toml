[package]
name = "ezytutor"
version = "0.1.0"
edition = "2021"
publish = false

[dependencies]
actix-cors = "0.7"
actix-web = { version = "4", default-features = false, features = ["macros"] }
actix-web-httpauth = "0.8"
bcrypt = "0.15"
chrono = { version = "0.4", default-features = false, features = ["clock", "std", "serde"] }
env_logger = { version = "0.11", default-features = false }
jsonwebtoken = "9"
log = "0.4"
serde = { version = "1", features = ["derive"] }
serde_json = { version = "1", features = ["preserve_order"] }
sqlx = { version = "0.7", default-features = false, features = ["runtime-tokio", "postgres", "uuid", "chrono", "macros", "migrate"] }
thiserror = "1"
uuid = { version = "1", features = ["v4", "serde"] }
validator = { version = "0.18", features = ["derive"] }
