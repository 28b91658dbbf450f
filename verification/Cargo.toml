[package]
name = "headlines"
version = "0.1.0"
edition = "2021"
publish = false

[dependencies]
confy = "0.5"
eframe = "0.19"
serde = { version = "1", features = ["derive"] }
tracing = "0.1"
tracing-subscriber = "0.3"
