[package]
name = "tuitools"
version = "0.1.0"
edition = "2021"
publish = false

[dependencies]
arboard = "*"
base16ct = "*"
base64 = "*"
chrono = "*"
md-5 = "*"
percent-encoding = "*"
ratatui = "*"
sha1 = "*"
sha2 = "*"
ulid = "*"
uuid = { version = "*", features = ["v4"] }
