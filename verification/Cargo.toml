[package]
name = "http_range_client"
version = "0.1.0"
edition = "2021"
publish = false

[dependencies]
async-trait = "0.1"
bytes = "1"
reqwest = { version = "0.11", default-features = false, features = ["blocking"] }
ureq = { version = "2", default-features = false }
