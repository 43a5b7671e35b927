[package]
name = "oura"
version = "0.1.0"
edition = "2021"
publish = false

[dependencies]
hex = "=0.4.3"
pallas = "=1.4.0"
serde = { version = "=1.0.229", features = ["derive"] }
serde_json = "=1.0.154"
crossterm = "=0.29.0"
unicode-truncate = "=3.0.0"
log = "=0.4.34"
tokio = { version = "=1.54.1", features = ["rt", "time", "net"] }
aws-config = "=1.12.0"
aws-sdk-s3 = "=1.152.0"
aws-sdk-sqs = "=1.114.0"
aws-types = "=1.6.0"
