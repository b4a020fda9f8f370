[package]
name = "upload_service"
version = "0.1.0"
edition = "2021"
publish = false

[dependencies]
bytes = "1"
hyper = { version = "0.14", features = ["full"] }
routerify = "3"
routerify-multipart = "3"
serde_json = "1"
tokio = { version = "1", features = ["full"] }
uuid = { version = "1", features = ["v4"] }
