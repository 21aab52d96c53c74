[package]
name = "qamaits"
version = "0.1.0"
edition = "2021"
publish = false

[dependencies]
base64 = "*"
bcrypt = "*"
bson = "*"
oauth2 = { version = "*", default-features = false }
rand = "*"
threadpool = "*"
validator = "*"
