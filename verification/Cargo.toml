[package]
name = "aws_s3"
version = "0.1.0"
edition = "2021"
publish = false

[dependencies]
anyhow = "1"
clap = "2"
rust-s3 = "0.26"
serde = { version = "1", features = ["derive"] }
serde_json = "1"
