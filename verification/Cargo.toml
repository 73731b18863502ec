[package]
name = "podcast_core"
version = "0.1.0"
edition = "2021"
publish = false

[dependencies]
anyhow = "1"
chrono = "0.4"
regex = "1"
rusqlite = { version = "*", features = ["bundled"] }
sanitize-filename = "*"
semver = "1"
