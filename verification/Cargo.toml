[package]
name = "toolbox"
version = "0.2.1"
edition = "2021"
publish = false

[dependencies]
bincode = "1"
serde = "1"
thiserror = "1"
tokio = { version = "1", features = ["rt", "time"] }
tokio-util = { version = "0.7", features = ["codec"] }
futures = "0.3"
tracing = "0.1"
tracing-appender = "0.2"
tracing-subscriber = { version = "0.3", features = ["env-filter", "json"] }
const_format = "0.2"
