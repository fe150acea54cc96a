[package]
name = "cableforge"
version = "0.1.0"
edition = "2021"
publish = false

[dependencies]
chrono = { version = "0.4", features = ["serde"] }
serde = { version = "1", features = ["derive"] }
thiserror = "1"
log = "0.4"
dirs = "5"
zip = { version = "0.6", default-features = false, features = ["deflate"] }
rusqlite = { version = "0.31", features = ["bundled"] }
screenshots = "0.8"
