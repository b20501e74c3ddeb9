[package]
name = "lumeo_api_client"
version = "0.1.0"
edition = "2021"
publish = false

[dependencies]
serde_json = { version = "=1.0.154", features = ["preserve_order"] }
uuid = { version = "=0.8.2", features = ["serde"] }
url = { version = "=2.5.8", features = ["serde"] }
vec1 = { version = "=1.12.1", features = ["serde"] }
serde = { version = "=1.0.229", features = ["derive"] }
serde_urlencoded = "=0.7.1"
serde_with = "=2.3.3"
chrono = { version = "=0.4.45", features = ["serde"] }
thiserror = "=1.0.69"
anyhow = "=1.0.104"
reqwest = { version = "=0.11.27", default-features = false, features = ["json"] }
