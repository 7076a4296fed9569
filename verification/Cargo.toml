[package]
name = "project_meta"
version = "0.1.0"
edition = "2021"
publish = false

[dependencies]
anyhow = "1"
confique = { version = "*", default-features = false }
serde = { version = "1", features = ["derive"] }
serde_json = "1"
thiserror = "*"
toml = "*"
