[package]
name = "mdoctor"
version = "0.1.0"
edition = "2021"
publish = false

[dependencies]
regex = "1"
roxmltree = "0.20"
serde_json = "1"
colored = "2"
serde = { version = "1", features = ["derive"] }
toml = "0.8"
chrono = "0.4"
clap = { version = "4", features = ["derive", "env"] }
comfy-table = "7"
mysql_async = { version = "0.34", default-features = false, features = ["minimal"] }
tokio = { version = "1", features = ["full"] }
tracing = "0.1"
tracing-subscriber = "0.3"
thiserror = "2"
