[package]
name = "huttripper"
version = "0.1.0"
edition = "2021"
publish = false

[dependencies]
aws-config = { version = "1", default-features = false }
aws-sdk-s3 = { version = "1", default-features = false }
aws-sdk-sqs = { version = "1", default-features = false }
chrono = { version = "0.4", features = ["serde"] }
elasticsearch = "8.5.0-alpha.1"
serde = { version = "1", features = ["derive"] }
serde_json = "1"
sqlx = { version = "0.8", default-features = false, features = ["postgres", "chrono"] }
