[package]
name = "actix_crud"
version = "0.1.0"
edition = "2021"
publish = false

[dependencies]
actix-files = "=0.6.10"
actix-rt = "=2.15.0"
actix-session = { version = "=0.10.1", features = ["cookie-session"] }
actix-web = "=4.18.1"
bcrypt = "=0.15.1"
chrono = "=0.4.45"
env_logger = "=0.11.11"
r2d2 = "=0.8.10"
r2d2_sqlite = "=0.35.0"
rand = "=0.8.8"
rusqlite = "=0.40.2"
serde = { version = "=1.0.229", features = ["derive"] }
serde_derive = "=1.0.229"
serde_json = { version = "=1.0.154", features = ["raw_value"] }
tokio = { version = "=1.54.1", features = ["sync"] }
tokio-stream = "=0.1.19"
uuid = { version = "=1.29.1", features = ["v4"] }
