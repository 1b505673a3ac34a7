[package]
name = "deepl_session"
version = "0.1.0"
edition = "2021"
publish = false

[dependencies]
reqwest = { version = "=0.13.5", default-features = false, features = ["blocking", "form", "json"] }
serde = { version = "=1.0.229", features = ["derive"] }
