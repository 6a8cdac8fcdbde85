[package]
name = "dataplane"
version = "0.1.0"
edition = "2021"
publish = false

[dependencies]
serde_json = "*"
axum = { version = "*", features = ["ws"] }
tokio = { version = "*", features = ["macros", "rt-multi-thread", "sync", "net", "time"] }
futures = "*"
livespeech-sdk = "*"
tower-http = { version = "*", features = ["cors"] }
tracing = "*"
tracing-subscriber = { version = "*", features = ["env-filter", "fmt"] }
dotenv = "*"
