[package]
name = "remote_dictionary"
version = "0.1.0"
edition = "2021"
publish = false

[dependencies]
linked-hash-map = "0.5"
hyper = { version = "0.14", features = ["full"] }
tokio = { version = "1", features = ["full"] }
tower-http = { version = "0.4", features = ["cors"] }
serde = { version = "1", features = ["derive"] }
serde_json = "1"
sysinfo = "0.29"
chrono = "0.4"
url = "2"
log = "0.4"
env_logger = "0.10"
dotenv = "0.15"
thiserror = "1"
