[package]
name = "summit"
version = "0.1.0"
edition = "2021"
publish = false

[dependencies]
anyhow = "1"
async-stream = "0.3"
axum = "0.6"
bytesize = "1"
chrono = "0.4"
clap = { version = "4", features = ["derive"] }
data-encoding = "2"
fake = "2"
futures = "0.3"
hyper = "0.14"
kanal = "*"
pulldown-cmark = "0.9"
rand = "0.8"
thiserror = "1"
tokio = { version = "1", features = ["full"] }
tower-http = { version = "0.4", features = ["trace"] }
tower-layer = "0.3"
tower-service = "0.3"
tracing = "0.1"
tracing-subscriber = { version = "0.3", features = ["env-filter"] }
uuid7 = "*"
