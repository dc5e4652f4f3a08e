[package]
name = "attendance_sheet"
version = "0.1.0"
edition = "2021"
publish = false

[dependencies]
chrono = "=0.4.45"
chrono-tz = "=0.10.4"
google-sheets4 = "=5.0.5"
hyper-rustls = "=0.25.0"
serde_json = "=1.0.154"
shuttle-secrets = "=0.42.0"
tokio = { version = "=1.54.1", features = ["fs", "time"] }
yup-oauth2 = "=9.0.0"
