[package]
name = "alarm_relay"
version = "0.1.0"
edition = "2021"
publish = false

[dependencies]
serde = "*"
serde_json = "*"
once_cell = "*"
reqwest = { version = "*", default-features = false, features = ["rustls-tls"] }
tokio = { version = "*", features = ["macros", "rt-multi-thread"] }
tracing = "*"
tracing-subscriber = "*"
lambda_runtime = "*"
aws_lambda_events = { version = "*", default-features = false, features = ["sns"] }
