[package]
name = "task_service"
version = "0.1.0"
edition = "2021"
publish = false

[dependencies]
bcrypt = "0.15"
chrono = { version = "0.4", features = ["serde"] }
axum = "0.8"
tokio = { version = "1", features = ["full"] }
tower = "0.5"
sqlx = { version = "0.8", default-features = false, features = ["runtime-tokio", "postgres", "chrono"] }
serde = { version = "1", features = ["derive"] }
jsonwebtoken = "9"
tracing = "0.1"
dotenvy = "0.15"
async-trait = "0.1"
