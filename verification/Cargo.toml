[package]
name = "course_pilot"
version = "0.1.0"
edition = "2021"
publish = false

[dependencies]
uuid = { version = "1", features = ["v4"] }
chrono = "0.4"
serde = { version = "1", features = ["derive"] }
serde_json = "1"
markdown = ">=1.0.0-alpha.1"
rusqlite = { version = "*", features = ["bundled"] }
anyhow = "1"
dirs = "*"
walkdir = "2"
log = "0.4"
