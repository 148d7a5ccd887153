[package]
name = "tmc_langs"
version = "0.1.0"
edition = "2021"
publish = false

[dependencies]
regex = "=1.13.1"
chrono = { version = "=0.4.45", default-features = false, features = ["std", "serde"] }
serde = { version = "=1.0.229", features = ["derive"] }
serde_json = "=1.0.154"
schemars = { version = "=0.8.22", features = ["chrono"] }
thiserror = "=1.0.69"
serde_yaml = "=0.9.34"
nom = "=7.1.3"
anyhow = "=1.0.104"
walkdir = "=2.5.0"
zip = { version = "=0.6.6", default-features = false }
