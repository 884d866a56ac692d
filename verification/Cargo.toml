[package]
name = "static_http_cache"
version = "0.1.0"
edition = "2021"
publish = false

[dependencies]
sqlite = "*"
rand = "*"
reqwest = { version = "*", default-features = false, features = ["blocking"] }

[dev-dependencies]
tempdir = "*"
