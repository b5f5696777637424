[package]
name = "masto_thread"
version = "0.1.0"
edition = "2021"
publish = false

[dependencies]
base_url = "=1.1.0"
html2md = "=0.2.17"
serde = { version = "*", features = ["derive"] }
serde_json = "*"
reqwest = { version = "*", default-features = false, features = ["blocking", "gzip"] }
anyhow = "*"
log = "*"
env_logger = "*"
