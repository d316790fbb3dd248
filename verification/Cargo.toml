[package]
name = "house_telemetry"
version = "0.1.0"
edition = "2021"
publish = false

[dependencies]
anyhow = "1"
axum = "*"
bme280 = "*"
chrono = { version = "0.4", features = ["serde"] }
linux-embedded-hal = "*"
rppal = "*"
rusqlite = { version = "*", features = ["bundled", "chrono"] }
serde = { version = "1", features = ["derive"] }
tokio = { version = "1", features = ["full"] }
tracing = "0.1"
tracing-subscriber = "0.3"
ureq = { version = "*", features = ["json"] }
