[package]
name = "rollbar"
version = "0.1.0"
edition = "2021"
publish = false

[dependencies]
backtrace = "=0.3.76"
futures = "0.3"
hyper = { version = "=0.14.32", features = ["client", "http1", "tcp"] }
hyper-tls = "=0.5.0"
tokio = { version = "=1.53.2", features = ["rt-multi-thread"] }

[dev-dependencies]
serde_json = "1"
