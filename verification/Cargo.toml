[package]
name = "support_watcher"
version = "0.1.0"
edition = "2021"
publish = false

[dependencies]
argh = "=0.1.19"
metrics = "=0.24.6"
metrics-exporter-prometheus = "=0.18.3"
reqwest = { version = "=0.13.5", default-features = false, features = ["blocking", "json", "query"] }
serde = { version = "=1.0.229", features = ["derive"] }
