[package]
name = "mailgun46"
version = "0.1.0"
edition = "2021"
publish = false

[dependencies]
base64 = "0.13"
url = "2"
serde_json = "1"
reqwest = { version = "0.12", default-features = false }
