[package]
name = "whspr-app"
version = "0.1.0"
edition = "2021"
publish = false

[dependencies]
serde_json = "1"
directories = "*"
tracing = "0.1"
tracing-subscriber = "0.3"
file-rotate = "*"
