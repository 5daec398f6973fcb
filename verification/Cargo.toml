[package]
name = "multibooru"
version = "0.1.0"
edition = "2021"
publish = false

[dependencies]
amqprs = "1"
async-trait = "0.1"
axum = "0.7"
chrono = { version = "0.4", features = ["serde"] }
derive_more = "0.99"
dotenvy = "0.15"
futures-util = "0.3"
hex = "0.4"
log = "0.4"
prometheus-client = "0.22"
rand = "0.8"
reqwest = { version = "0.11", default-features = false, features = ["rustls-tls", "stream", "json"] }
serde = { version = "1", features = ["derive"] }
serde_json = "1"
serde_repr = "0.1"
serde-xml-rs = "0.6"
sha2 = "0.10"
sqlx = { version = "0.7", default-features = false, features = ["sqlite", "runtime-tokio"] }
tokio = { version = "1", features = ["full"] }
tokio-util = "0.7"
tracing = "0.1"
tracing-subscriber = "0.3"
uuid = { version = "1", features = ["v4"] }
