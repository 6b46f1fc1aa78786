[package]
name = "auto_ocr"
version = "0.1.0"
edition = "2021"
publish = false

[dependencies]
arboard = "*"
device_query = "*"
image = { version = "*", default-features = false, features = ["png", "ico"] }
leptess = "*"
