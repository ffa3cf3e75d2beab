[package]
name = "ogcapi_services"
version = "0.1.0"
edition = "2021"
publish = false

[dependencies]
anyhow = "1"
axum = { version = "0.5", features = ["headers"] }
chrono = "0.4"
clap = { version = "3", features = ["derive", "env"] }
dotenv = "0.15"
hyper = "0.14"
once_cell = "1"
serde = { version = "1", features = ["derive"] }
serde_json = "1"
sqlx = { version = "0.7", default-features = false, features = ["runtime-tokio", "postgres", "json"] }
tokio = { version = "1", features = ["macros", "rt-multi-thread"] }
tower-http = { version = "0.3", features = ["auth"] }
tracing = "0.1"
tracing-subscriber = "0.3"
url = "2"
