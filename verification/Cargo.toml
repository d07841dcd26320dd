[package]
name = "follow_redirects"
version = "0.1.0"
edition = "2021"
publish = false

[dependencies]
bytes = "1"
hyper = { version = "0.14", features = ["client", "http1", "tcp"] }
