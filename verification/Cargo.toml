[package]
name = "gazelle"
version = "0.1.0"
edition = "2021"
publish = false

[dependencies]
nalgebra = "*"
rayon = "*"
rand = "*"
serde = { version = "*", features = ["derive"] }
serde_json = "*"
serde_yaml = "*"
thiserror = "*"
log = "*"
env_logger = "*"
clap = { version = "*", features = ["derive"] }
