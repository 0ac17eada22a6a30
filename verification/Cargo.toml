[package]
name = "rexit"
version = "0.1.0"
edition = "2021"
publish = false

[dependencies]
chrono = "0.4"
html-escape = "*"
serde = { version = "*", features = ["derive"] }
serde_json = "*"
regex = "*"
urlencoding = "*"
reqwest = { version = "*", default-features = false, features = ["blocking", "cookies", "rustls-tls"] }
