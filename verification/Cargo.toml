[package]
name = "mini_ops"
version = "0.1.0"
edition = "2021"
publish = false

[dependencies]
axum = { version = "0.8", default-features = false, features = ["http1", "json", "query", "tokio"] }
bollard = "*"
chrono = { version = "0.4", default-features = false, features = ["std", "clock", "serde"] }
dotenvy = "0.15"
futures-util = "0.3"
hostname = "0.4"
mime_guess = "2"
rand = "0.9"
reqwest = { version = "0.12", default-features = false, features = ["json", "rustls-tls"] }
rust-embed = "8"
serde = { version = "1", features = ["derive"] }
serde_json = "1"
sqlx = { version = "0.8", default-features = false, features = ["runtime-tokio", "sqlite", "derive"] }
sysinfo = "*"
tokio = { version = "1", features = ["full"] }
tokio-stream = "0.1"
tower-http = { version = "0.6", features = ["trace"] }
tracing = "0.1"
tracing-subscriber = { version = "0.3", features = ["env-filter"] }
uuid = { version = "1", features = ["v4"] }
