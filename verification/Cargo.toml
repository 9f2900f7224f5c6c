[package]
name = "chatglm_web"
version = "0.1.0"
edition = "2021"
publish = false

[dependencies]
serde_json = "*"
url = "*"
reqwest = { version = "*", default-features = false, features = ["json", "stream"] }
serde = { version = "*", features = ["derive"] }
axum = { version = "*", features = ["ws"] }
tokio = { version = "*", features = ["rt-multi-thread", "macros", "sync", "time", "net"] }
tower-http = { version = "*", features = ["cors"] }
futures = "*"
anyhow = "*"
dotenv = "*"
tracing = "*"
tracing-subscriber = "*"
chrono = "*"
uuid = { version = "*", features = ["v4"] }
async-trait = "*"
