[package]
name = "cardahoy"
version = "0.1.0"
edition = "2021"
publish = false

[dependencies]
aes = "0.7"
anyhow = "1"
base64 = "0.21"
block-modes = "0.8"
calamine = "0.24"
chrono = "0.4"
clap = { version = "4", features = ["derive"] }
comfy-table = { version = "7", default-features = false }
csv = "1"
futures = "0.3"
openssl = "0.10"
rand = "0.8"
reqwest = { version = "0.12", features = ["json"] }
rsa = "0.9"
serde = { version = "1", features = ["derive"] }
serde_json = "1"
tokio = { version = "1", features = ["macros", "rt-multi-thread", "time"] }
toml = "0.8"
tracing = "0.1"
tracing-appender = "0.2"
tracing-subscriber = { version = "0.3", features = ["env-filter"] }
uuid = { version = "1", features = ["v4"] }
xlsxwriter = "0.6"
