[package]
name = "openweathermap"
version = "0.1.0"
edition = "2021"

[dependencies]
http = "1"
regex = "1"
reqwest = { version = "0.12", features = ["blocking"] }
serde = { version = "1", features = ["derive"] }
serde_json = "1"
