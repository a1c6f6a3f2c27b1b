[package]
name = "ott"
version = "0.1.0"
edition = "2021"
publish = false

[dependencies]
moka = { version = "=0.12.16", features = ["sync"] }
serde = { version = "=1.0.229", features = ["derive"] }
serde_json = "=1.0.154"
tokio = { version = "=1.54.1", features = ["rt-multi-thread", "macros", "sync", "time"] }
tokio-stream = "=0.1.19"
reqwest = { version = "=0.12.28", features = ["json"] }
sqlx = { version = "=0.9.0", default-features = false, features = ["postgres", "runtime-tokio"] }
pgvector = { version = "=0.4.2", features = ["sqlx"] }
fluvio = "=0.50.1"
tracing = "=0.1.44"
tracing-subscriber = { version = "=0.3.23", features = ["env-filter"] }
