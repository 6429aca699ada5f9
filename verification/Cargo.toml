[package]
name = "kamism"
version = "0.1.0"
edition = "2021"
publish = false

[dependencies]
sha2 = "=0.10.9"
rand = "=0.8.8"
uuid = { version = "=1.29.0", features = ["v4", "serde"] }
bcrypt = "=0.15.1"
chrono = { version = "=0.4.45", default-features = false, features = ["clock", "std"] }
serde = { version = "=1.0.229", features = ["derive"] }
serde_json = "=1.0.154"
axum = { version = "=0.7.9", default-features = false, features = ["json", "query", "tokio", "http1"] }
tokio = { version = "=1.54.1", features = ["rt-multi-thread", "macros"] }
sqlx = { version = "=0.8.6", default-features = false, features = ["postgres", "runtime-tokio", "uuid", "chrono", "json"] }
redis = { version = "=0.27.6", default-features = false, features = ["aio", "tokio-comp"] }
reqwest = { version = "=0.12.28", default-features = false, features = ["json"] }
tracing = "=0.1.44"
