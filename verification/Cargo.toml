[package]
name = "datalink"
version = "0.1.0"
edition = "2021"
publish = false

[dependencies]
chrono = "=0.4.45"
serde = { version = "=1.0.229", features = ["derive"] }
sqlx = { version = "=0.9.0", default-features = false, features = ["derive"] }
tokio = { version = "=1.54.1", features = ["sync", "time"] }
tonic = "=0.14.6"
tracing = "=0.1.44"
