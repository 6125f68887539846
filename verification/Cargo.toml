[package]
name = "rv_backend"
version = "0.1.0"
edition = "2021"
publish = false

[dependencies]
anyhow = "1"
axum = "0.8"
bcrypt = "*"
chrono = "0.4"
dotenv = "0.15"
hex = "0.4"
jsonwebtoken = { version = "10", default-features = false, features = ["rust_crypto"] }
lettre = { version = "0.11", default-features = false, features = ["smtp-transport", "builder", "rustls-tls"] }
minijinja = "2"
sea-orm = { version = "1", default-features = false, features = ["macros", "with-chrono", "sqlx-postgres", "runtime-tokio-rustls"] }
serde = { version = "1", features = ["derive"] }
serde_json = { version = "1", features = ["preserve_order"] }
sha2 = "0.10"
thiserror = "2"
tokio = { version = "1", features = ["full"] }
tracing = "0.1"
tracing-subscriber = { version = "0.3", features = ["env-filter", "json"] }
