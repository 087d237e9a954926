[package]
name = "agent_engine"
version = "0.1.0"
edition = "2021"
publish = false

[dependencies]
serde_json = "*"
serde_yaml = "*"
handlebars = "*"
chrono = "*"
reqwest = { version = "*", default-features = false, features = ["blocking"] }
walkdir = "*"
