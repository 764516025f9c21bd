[package]
name = "cliptrack"
version = "0.1.0"
edition = "2021"
publish = false

[dependencies]
base64 = "*"
chrono = "*"
image = { version = "*", default-features = false, features = ["png"] }
serde_json = "*"
url = "*"
