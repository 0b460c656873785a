[package]
name = "rustcwb"
version = "0.1.0"
edition = "2021"
publish = false

[dependencies]
anyhow = "1"
axum = "0.7"
axum-htmx = "0.5"
base64 = "0.22"
chrono = { version = "0.4", features = ["serde"] }
markdown = "1.0.0-alpha.1"
minijinja = "2"
serde = { version = "1", features = ["derive"] }
sqlx = { version = "0.7", features = ["sqlite", "runtime-tokio", "chrono"] }
thiserror = "1"
tokio = { version = "1", features = ["full"] }
tower-http = { version = "0.5", features = ["fs"] }
tracing = "0.1"
ulid = { version = "1", features = ["serde"] }
url = { version = "2", features = ["serde"] }
