[package]
name = "validated_values"
version = "0.1.0"
edition = "2021"
publish = false

[dependencies]
email_address = "*"
axum = "*"
serde = { version = "*", features = ["derive"] }
thiserror = "*"
tokio = { version = "*", features = ["rt-multi-thread", "net", "macros"] }
tracing-subscriber = "*"
