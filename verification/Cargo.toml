[package]
name = "web_api"
version = "0.1.0"
edition = "2021"
publish = false

[dependencies]
async-trait = "=0.1.92"
axum = "=0.8.9"
chrono = { version = "=0.4.45", features = ["serde"] }
derive-new = "=0.7.0"
serde = { version = "=1.0.229", features = ["derive"] }
sqlx = { version = "=0.9.0", default-features = false, features = ["sqlite", "runtime-tokio", "chrono", "macros"] }
tokio = { version = "=1.53.2", features = ["rt-multi-thread", "net", "signal", "fs", "macros"] }
tower-http = { version = "=0.7.1", features = ["cors", "fs"] }
