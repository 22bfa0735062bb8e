[package]
name = "rendezvous"
version = "0.1.0"
edition = "2021"
publish = false

[dependencies]
base64 = "*"
headers = "*"
http = "*"
mime = "*"
serde_json = "*"
sha2 = "*"
ulid = "*"
