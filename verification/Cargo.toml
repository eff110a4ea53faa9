[package]
name = "wecom_bot"
version = "0.1.0"
edition = "2021"
publish = false

[dependencies]
base64 = "*"
md5 = "*"
serde = { version = "*", features = ["derive"] }
serde_json = "*"
reqwest = { version = "*", default-features = false, features = ["blocking", "json", "multipart"] }
tokio = { version = "*", default-features = false, features = ["fs"] }
