[package]
name = "sensor"
version = "0.1.0"
edition = "2021"
publish = false

[dependencies]
aht20 = "0.1"
chrono = "0.4"
embedded-hal = "0.2"
linux-embedded-hal = "0.3"
reqwest = { version = "0.11", features = ["blocking"] }
serde_json = "1"

[dev-dependencies]
serde = "1"
