[package]
name = "cosmic-weather-applet"
version = "0.1.0"
edition = "2021"
publish = false

[dependencies]
chrono = "0.4"
fuzzy-matcher = "0.3"
urlencoding = "2"
reqwest = { version = "0.12", features = ["json"] }
serde = { version = "1", features = ["derive"] }
tracing = "0.1"
tracing-subscriber = "0.3"
