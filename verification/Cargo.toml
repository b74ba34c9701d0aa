[package]
name = "data_analyst"
version = "0.1.0"
edition = "2021"
publish = false

[dependencies]
calamine = "=0.37.0"
chrono = "=0.4.45"
polars = { version = "=0.52.0", default-features = false }
serde = { version = "=1.0.229", features = ["derive"] }
serde_json = "=1.0.154"
thiserror = "=2.0.21"
uuid = { version = "=1.29.0", features = ["v4"] }
