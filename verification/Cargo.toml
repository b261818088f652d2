[package]
name = "coqrs"
version = "0.1.0"
edition = "2021"
publish = false

[dependencies]
anyhow = "*"
axum = "*"
dotenvy = "*"
serde = { version = "*", features = ["derive"] }
serde_json = "*"
sqlx = { version = "*", default-features = false, features = ["runtime-tokio", "postgres", "uuid"] }
tokio = { version = "*", features = ["rt-multi-thread", "macros", "sync", "net", "time"] }
tonic = "*"
tower = { version = "*", features = ["steer", "make", "util"] }
tracing = "*"
tracing-subscriber = { version = "*", features = ["env-filter", "fmt"] }
uuid = { version = "*", features = ["v7"] }
