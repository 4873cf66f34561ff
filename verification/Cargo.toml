[package]
name = "madoka_auth"
version = "0.1.0"
edition = "2021"
publish = false

[dependencies]
sha2 = "0.10"
base16ct = { version = "0.2", features = ["alloc"] }
chrono = "0.4"
uuid = { version = "1", features = ["v4"] }
rand = "0.8"
