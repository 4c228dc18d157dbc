[package]
name = "test_client"
version = "0.1.0"
edition = "2021"
publish = false

[dependencies]
axum = "=0.6.20"
bytes = "=1.12.1"
http = "=0.2.12"
port_check = "=0.1.5"
reqwest = { version = "=0.11.27", default-features = false, features = ["json", "multipart"] }
serde = "=1.0.229"
serde_json = "=1.0.154"
tokio = { version = "=1.54.1", features = ["rt", "time", "net"] }

[dev-dependencies]
tower-service = "=0.3.3"
