[package]
name = "sdkwork-github"
version = "0.1.0"
edition = "2021"
publish = false

[dependencies]
chrono = "0.4"
uuid = { version = "1", features = ["v4"] }
urlencoding = "2"
serde = { version = "1", features = ["derive"] }
serde_json = "1"
thiserror = "2"
async-trait = "0.1"
axum = "0.7"
http = "1"
tokio = { version = "1", features = ["macros", "rt-multi-thread", "time"] }
tracing = "0.1"
sqlx = { version = "0.8", default-features = false, features = ["runtime-tokio", "postgres", "derive"] }
