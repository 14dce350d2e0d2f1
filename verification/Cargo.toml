[package]
name = "backend"
version = "0.1.0"
edition = "2021"
publish = false

[dependencies]
chrono = { version = "0.4", features = ["serde"] }
rand = "0.9"
sha2 = "0.10"
base64 = "0.22"
serde = { version = "1", features = ["derive"] }
serde_json = "1"
async-trait = "0.1"
tracing = "0.1"
tokio = { version = "1", features = ["time"] }
axum = "0.8"
sqlx = { version = "0.8", default-features = false, features = ["postgres", "chrono", "json", "runtime-tokio", "macros"] }
