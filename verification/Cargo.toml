[package]
name = "imdb_api"
version = "0.1.0"
edition = "2021"
publish = false

[dependencies]
base64 = "*"
chrono = "*"
hmac = "*"
regex = "*"
reqwest = { version = "*", default-features = false, features = ["json"] }
serde_json = "*"
sha2 = "*"
url = "*"
urlencoding = "*"
