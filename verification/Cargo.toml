[package]
name = "lightwatch"
version = "0.1.0"
edition = "2021"
publish = false

[dependencies]
anyhow = "=1.0.104"
chrono = "=0.4.45"
dptree = "=0.5.1"
envy = "=0.4.2"
futures = "=0.3.34"
pretty_env_logger = "=0.5.0"
redis = "=1.7.1"
serde = { version = "=1.0.229", features = ["derive"] }
takecell = "=0.1.1"
teloxide = { version = "=0.17.0", features = ["macros"] }
tokio = { version = "=1.53.2", features = ["macros", "rt-multi-thread"] }
