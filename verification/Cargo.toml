[package]
name = "upload_facade"
version = "0.1.0"
edition = "2021"
publish = false

[dependencies]
uuid = { version = "=1.27.0", features = ["v4"] }
actix-web = "=4.15.0"
actix-multipart = "=0.8.5"
actix-files = "=0.7.0"
azure_storage = "=0.21.0"
azure_storage_blobs = "=0.21.0"
serde = { version = "=1.0.229", features = ["derive"] }
log = "=0.4.34"
pretty_env_logger = "=0.5.0"
