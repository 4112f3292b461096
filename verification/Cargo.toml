[package]
name = "axum-prometheus"
version = "0.1.0"
edition = "2021"
publish = false

[dependencies]
axum = { version = "0.7", default-features = false, features = ["matched-path"] }
bytes = "1"
futures-core = "0.3"
http = "1"
http-body = "1"
matchit = "0.7"
metrics = "0.23"
metrics-exporter-prometheus = "0.15"
metrics-util = "0.17"
once_cell = "1"
pin-project = "1"
pin-project-lite = "0.2"
tower = "0.5"
tower-http = "0.5"
