[package]
name = "project_tracker"
version = "0.1.0"
edition = "2021"
publish = false

[dependencies]
chrono = "0.4"
pulldown-cmark = { version = "0.12", default-features = false }
url = "2"
fuzzy-matcher = "0.3"
serde = { version = "1", features = ["derive"] }
serde_json = "1"
toml = "0.8"
walkdir = "2"
rayon = "1"
which = "7"
directories = "5"
single-instance = "0.3"
thiserror = "2"
