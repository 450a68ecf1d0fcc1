[package]
name = "tugboat"
version = "0.1.0"
edition = "2021"
publish = false

[dependencies]
anyhow = "1"
base64 = "0.13"
fastrand = "1"
google-texttospeech1 = "5"
hyper = "0.14"
hyper-rustls = "0.24"
serde_json = "1"
serenity = "0.11"
songbird = "0.3"
tempfile = "3"
tokio = { version = "1", features = ["macros", "rt-multi-thread"] }
tracing = "0.1"
tracing-subscriber = { version = "0.3", features = ["env-filter"] }
yup-oauth2 = "8"
