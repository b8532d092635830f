[package]
name = "counterfire2"
version = "0.1.2"
edition = "2021"
publish = false

[dependencies]
rand = "=0.8.8"
anyhow = "=1.0.104"
serde = { version = "=1.0.229", features = ["derive"] }
serde_json = "=1.0.154"
tokio = { version = "=1.54.1", features = ["full"] }
parking_lot = "=0.12.5"
tracing = "=0.1.44"
tracing-subscriber = { version = "=0.3.23", features = ["env-filter"] }
bytes = "=1.12.1"
image = { version = "=0.25.10", default-features = false, features = ["png"] }
cs2-gsi = "*"
