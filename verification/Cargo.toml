[package]
name = "reminder_lint"
version = "0.1.0"
edition = "2021"
publish = false

[dependencies]
anyhow = "=1.0.104"
argh = "=0.1.19"
chrono = "=0.4.45"
config = { version = "=0.15.27", default-features = false, features = ["yaml"] }
grep-regex = "=0.1.14"
grep-searcher = "=0.1.17"
ignore = "=0.4.33"
promptuity = "=0.0.5"
regex = "=1.13.1"
serde = { version = "=1.0.229", features = ["derive"] }
serde_json = "=1.0.154"
serde_yaml = "0.9.34"
thiserror = "=1.0.69"
