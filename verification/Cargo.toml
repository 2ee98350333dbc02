[package]
name = "bloggen"
version = "0.1.0"
edition = "2021"
publish = false

[dependencies]
chrono = "=0.4.45"
comrak = "=0.42.0"
clap = "=4.6.7"
serde = { version = "=1.0.229", features = ["derive"] }
serde_json = "=1.0.151"
