[package]
name = "identify"
version = "0.1.0"
edition = "2021"
publish = false

[dependencies]
uuid = { version = "*", features = ["v5"] }
chrono = "*"
eyre = "*"
thiserror = "*"
axum = "*"
sqlx = { version = "*", default-features = false, features = ["runtime-tokio", "sqlite", "chrono", "uuid", "macros"] }
tokio = { version = "*", features = ["rt-multi-thread", "macros", "net", "sync"] }
async-trait = "*"
tracing = "*"
tracing-subscriber = { version = "*", features = ["env-filter"] }
