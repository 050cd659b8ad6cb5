[package]
name = "fuzzy"
version = "0.1.0"
edition = "2021"
publish = false

[dependencies]
ring = "*"
regex = "*"
tracing = "*"
tracing-subscriber = { version = "*", features = ["env-filter"] }
chrono = "*"
clap = "*"
serde = { version = "*", features = ["derive"] }
serde_yaml = "*"
tokio = { version = "*", features = ["full"] }
log = "*"
pretty_env_logger = "*"

[dev-dependencies]
data-encoding = "*"
