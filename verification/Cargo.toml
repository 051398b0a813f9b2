[package]
name = "bibval"
version = "0.1.0"
edition = "2021"
publish = false

[dependencies]
reqwest = { version = "*", default-features = false, features = ["blocking", "json"] }
serde = { version = "*", features = ["derive"] }
urlencoding = "*"
regex-lite = "*"
strsim = "*"
