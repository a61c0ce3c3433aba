[package]
name = "proxyparser"
version = "0.1.0"
edition = "2021"
publish = false

[dependencies]
url = "*"
reqwest = { version = "*", default-features = false, features = ["blocking"] }
boa_engine = "*"
chrono = "*"
