[package]
name = "gis_puller"
version = "0.1.0"
edition = "2021"
publish = false

[dependencies]
regex = "=1.13.1"
serde = { version = "=1.0.229", features = ["derive"] }
serde_json = "=1.0.151"
reqwest = { version = "=0.13.5", default-features = false, features = ["query"] }
tokio = { version = "=1.53.2", features = ["rt-multi-thread", "macros"] }
config = { version = "=0.15.27", default-features = false, features = ["toml", "json"] }
