[package]
name = "glacier_weather"
version = "0.1.0"
edition = "2021"
publish = false

[dependencies]
chrono = "0.4"
chrono-tz = "0.10"
google-sheets4 = "5"
hyper = "0.14"
hyper-rustls = "0.24"
yup-oauth2 = "8"
tokio = { version = "1", features = ["full"] }
reqwest = { version = "0.11", default-features = false, features = ["json", "rustls-tls"] }
serde = { version = "1", features = ["derive"] }
serde_derive = "1"
serde_json = "1"
anyhow = "1"
dotenv = "0.15"
