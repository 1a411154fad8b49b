[package]
name = "actix-flash"
version = "0.2.0"
edition = "2021"
publish = false

[dependencies]
actix-service = "1"
actix-web = { version = "3", default-features = false }
futures = "0.3"
serde = { version = "1", features = ["derive"] }
serde_json = "1"
