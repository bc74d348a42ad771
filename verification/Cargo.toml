[package]
name = "imogen"
version = "0.1.0"
edition = "2021"
publish = false

[dependencies]
image = "0.24"
webp = "0.2"
serde = { version = "1", features = ["derive"] }
serde_json = "1"
actix-web = "4"
actix-multipart = "0.7"
actix-files = "0.6"
futures = "0.3"
