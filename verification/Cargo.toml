[package]
name = "xai_client"
version = "0.1.0"
edition = "2021"
publish = false

[dependencies]
serde_json = "1"
ureq = { version = "3", features = ["json"] }
