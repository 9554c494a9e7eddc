[package]
name = "serenity_oauth"
version = "0.1.0"
edition = "2021"
publish = false

[dependencies]
serde_json = "1"
serde_urlencoded = "0.7"
reqwest = { version = "0.11", default-features = false, features = ["blocking"] }
