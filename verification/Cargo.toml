[package]
name = "url_cache"
version = "0.1.0"
edition = "2021"
publish = false

[dependencies]
sha2 = "0.10"
reqwest = "0.12"
log = "0.4"
hostname = "0.4"
once_cell = "1"
serde = { version = "1", features = ["derive"] }
serde_json = "1"
