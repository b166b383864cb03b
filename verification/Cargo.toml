[package]
name = "codex_config"
version = "0.1.0"
edition = "2021"
publish = false

[dependencies]
toml_edit = "0.19"
serde_json = "1"
serde = { version = "1", features = ["derive"] }
