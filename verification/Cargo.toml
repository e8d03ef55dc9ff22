[package]
name = "longshot"
version = "0.1.0"
edition = "2021"
publish = false

[dependencies]
chrono = "*"
colored = "*"
fern = "*"
futures = "*"
hyper = { version = "0.14", features = ["client", "http1", "http2", "tcp"] }
hyper-tls = "0.5"
log = "*"
serde = { version = "*", features = ["derive"] }
serde_json = "*"
serenity = "0.11"
tokio = { version = "*", features = ["macros", "rt-multi-thread"] }
