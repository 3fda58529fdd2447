[package]
name = "indexer"
version = "0.1.0"
edition = "2021"
publish = false

[dependencies]
serde_json = { version = "1", features = ["preserve_order"] }
serde = { version = "1", features = ["derive"] }
regex = "1"
base64 = "0.22"
htmd = "*"
uuid = { version = "1", features = ["v4"] }
handlebars = "*"
urlencoding = "2"
chrono = "0.4"
anyhow = "1"
async-trait = "0.1"
futures-util = "0.3"
tokio = { version = "1", features = ["full"] }
reqwest = { version = "0.12", default-features = false, features = ["json", "stream"] }
tokio-rusqlite = { version = "*", features = ["bundled"] }
tracing = "0.1"
axum = "*"
clap = { version = "4", features = ["derive"] }
