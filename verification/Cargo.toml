[package]
name = "home_server"
version = "0.1.0"
edition = "2021"
publish = false

[dependencies]
dotenv = "*"
tokio = { version = "*", features = ["macros", "rt-multi-thread"] }
tracing = "*"
tracing-appender = "*"
tracing-subscriber = { version = "*", features = ["env-filter"] }
