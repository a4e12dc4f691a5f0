[package]
name = "healthcheck"
version = "0.1.0"
edition = "2021"
publish = false

[dependencies]
futures = "0.3"
hyper = { version = "=0.14.32", features = ["client", "http1", "tcp"] }
hyper-rustls = "=0.24.2"
serde = { version = "1", features = ["derive"] }
takecell = "=0.1.1"
teloxide = "=0.12.2"
tokio = { version = "1", features = ["macros", "rt-multi-thread", "time"] }
toml = "=0.8.23"
tracing = "0.1"
tracing-subscriber = "0.3"
