[package]
name = "bittower"
version = "0.1.0"
edition = "2021"
publish = false

[dependencies]
anyhow = "1"
axum = { version = "0.7", features = ["ws"] }
axum-extra = { version = "0.9", features = ["typed-header"] }
base64 = "0.22"
bincode = "1"
cookie = "0.18"
futures = "0.3"
http = "1"
human_bytes = "0.4"
humantime = "2"
json-patch = "*"
reqwest = { version = "0.12", default-features = false, features = ["json", "cookies"] }
rmp-serde = "1"
serde = { version = "1", features = ["derive"] }
serde_json = "1"
simple_crypt = "*"
thiserror = "1"
tokio = { version = "1", features = ["rt-multi-thread", "macros", "time", "net", "sync"] }
tokio-stream = { version = "0.1", features = ["time"] }
tower-http = { version = "0.5", features = ["trace"] }
tracing = "0.1"
tracing-subscriber = "0.3"
