[package]
name = "myday"
version = "0.1.0"
edition = "2021"
publish = false

[dependencies]
jwt = "=0.16.0"
serde_json = "=1.0.154"
serde = { version = "=1.0.229", features = ["derive"] }
reqwest = { version = "=0.13.5", features = ["json", "form", "query"] }
actix-web = "=4.18.1"
env_logger = "=0.11.11"
