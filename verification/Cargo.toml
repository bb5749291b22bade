[package]
name = "opencat"
version = "0.1.0"
edition = "2021"
publish = false

[dependencies]
serde_json = "1"
jsonwebtoken = "9"
serde = { version = "1", features = ["derive"] }
anyhow = "1"
axum = "0.8"
tokio = { version = "1", features = ["macros", "rt-multi-thread", "time", "net"] }
sqlx = { version = "0.8", default-features = false, features = ["sqlite", "runtime-tokio", "migrate", "derive"] }
reqwest = { version = "0.12", default-features = false, features = ["json"] }
chrono = "0.4"
uuid = { version = "1", features = ["v4"] }
clap = { version = "4", features = ["derive"] }
sha2 = "0.10"
base64 = "0.22"
tower-http = { version = "0.6", features = ["cors"] }
tracing = "0.1"
tracing-subscriber = { version = "0.3", features = ["env-filter"] }
secrecy = { version = "0.10", features = ["serde"] }
async-trait = "0.1"
