[package]
name = "factorio_seasons"
version = "0.1.0"
edition = "2021"
publish = false

[dependencies]
chrono = { version = "=0.4.45", default-features = false, features = ["std", "clock", "serde"] }
uuid = { version = "=1.29.0", features = ["v4", "serde"] }
axum = "=0.8.9"
sqlx = { version = "=0.8.6", default-features = false, features = ["sqlite", "runtime-tokio", "derive"] }
tokio = { version = "=1.54.1", features = ["macros", "rt-multi-thread", "fs", "process", "time", "net", "io-util"] }
tokio-util = { version = "=0.7.20", features = ["io"] }
tower-http = { version = "=0.6.11", features = ["fs"] }
tower_governor = "=0.7.0"
tracing = "=0.1.44"
tracing-subscriber = { version = "=0.3.23", features = ["env-filter", "json"] }
serde = { version = "=1.0.229", features = ["derive"] }
serde_json = "=1.0.154"
toml = "=0.8.23"
rcon-client = "=0.1.3"
