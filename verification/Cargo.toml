[package]
name = "investment_os"
version = "0.1.0"
edition = "2021"
publish = false

[dependencies]
askama = "*"
axum = "0.8"
axum-extra = { version = "*", features = ["cookie"] }
jwt-simple = { version = "0.12", default-features = false, features = ["pure-rust"] }
password-auth = "1"
serde = { version = "1", features = ["derive"] }
sqlx = { version = "0.8", default-features = false, features = ["postgres", "runtime-tokio"] }
thiserror = "2"
tracing = "0.1"
