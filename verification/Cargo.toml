[package]
name = "music_uploader_server"
version = "0.1.0"
edition = "2021"
publish = false

[dependencies]
sha256 = { version = "=1.6.0", default-features = false }
rust-fuzzy-search = "=0.1.1"
time = "=0.3.55"
thiserror = "=2.0.21"
serde = { version = "=1.0.229", features = ["derive"] }
serde_json = "=1.0.151"
toml = "=1.1.7"
rusqlite = { version = "=0.40.2", features = ["bundled"] }
roxmltree = "=0.21.1"
reqwest = { version = "=0.13.5", default-features = false, features = ["query"] }
