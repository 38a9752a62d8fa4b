[package]
name = "howto_upload"
version = "0.1.0"
edition = "2021"
publish = false

[dependencies]
image = "0.24"
uuid = { version = "1", features = ["v4"] }
actix-web = "4"
actix-multipart = "0.6"
futures = "0.3"
serde = { version = "1", features = ["derive"] }
