[package]
name = "encounter_tracker"
version = "0.1.0"
edition = "2021"
publish = false

[dependencies]
anyhow = "=1.0.104"
chrono = "=0.4.45"
serde = { version = "1", features = ["derive"] }
tokio = { version = "=1.54.1", features = ["rt", "rt-multi-thread"] }
