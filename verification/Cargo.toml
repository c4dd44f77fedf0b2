[package]
name = "openrollback"
version = "0.1.0"
edition = "2021"
publish = false

[dependencies]
sha2 = "*"
chrono = { version = "*", default-features = false, features = ["clock", "std"] }
dirs = "*"
notify = "*"
rusqlite = { version = "*", features = ["bundled"] }
serde = { version = "*", features = ["derive"] }
serde_json = "*"
thiserror = "*"
anyhow = "*"
tempfile = "*"
