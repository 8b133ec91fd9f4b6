[package]
name = "pickup_core"
version = "0.1.0"
edition = "2021"
publish = false

[dependencies]
skillratings = "*"
axum = "*"
tokio = { version = "*", features = ["macros", "rt-multi-thread", "net"] }
sqlx = { version = "*", features = ["runtime-tokio", "tls-rustls", "postgres", "chrono", "uuid"] }
serde = { version = "*", features = ["derive"] }
serde_json = "*"
uuid = { version = "*", features = ["serde"] }
chrono = { version = "*", features = ["serde"] }
tower-http = { version = "*", features = ["cors"] }
dotenv = "*"
