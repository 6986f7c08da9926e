[package]
name = "languages_info"
version = "0.1.0"
edition = "2021"
publish = false

[dependencies]
owo-colors = "3"
serde = { version = "1", features = ["derive"] }
