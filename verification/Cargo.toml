[package]
name = "kafka_client"
version = "0.1.0"
edition = "2021"
publish = false

[dependencies]
anyhow = "=1.0.104"
bytes = "=1.12.1"
crossterm = "=0.25.0"
futures = "=0.3.34"
kafka-protocol = { version = "=0.15.1", default-features = false, features = ["client", "broker", "messages_enums"] }
tokio = { version = "=1.54.1", features = ["full"] }
tokio-tower = "=0.6.0"
tokio-util = { version = "=0.7.20", features = ["codec"] }
tower = "=0.4.13"
tracing = "=0.1.44"
tracing-subscriber = { version = "=0.3.23", features = ["env-filter"] }
tui = "=0.19.0"
