[package]
name = "grid_core"
version = "0.1.0"
edition = "2021"
publish = false

[dependencies]
cylinder = { version = "=0.3.1", features = ["jwt"] }
semver = "=1.0.28"
serde = { version = "=1.0.229", features = ["derive"] }
serde_json = "1"
reqwest = { version = "=0.13.5", default-features = false, features = ["blocking", "json"] }
