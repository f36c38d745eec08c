[package]
name = "newsletter"
version = "0.1.0"
edition = "2021"
publish = false

[dependencies]
validator = "*"
rand = "*"
base64 = "*"
hex = "*"
hmac = "*"
sha2 = "*"
urlencoding = "*"
uuid = { version = "*", features = ["v4"] }
chrono = "*"
htmlescape = "*"
argon2 = "*"
