[package]
name = "announcer"
version = "0.1.0"
edition = "2021"
publish = false

[dependencies]
chrono = "=0.4.45"
serde_json = "=1.0.151"
base64 = "=0.23.1"
anyhow = "=1.0.104"
tokio = { version = "=1.53.2", features = ["macros", "rt-multi-thread"] }
serenity = "=0.12.5"
google-youtube3 = { version = "=7.0.0", features = ["yup-oauth2-service-account"] }
