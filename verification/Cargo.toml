[package]
name = "splitedit"
version = "0.1.0"
edition = "2021"
publish = false

[dependencies]
livesplit-core = { version = "0.13", default-features = false, features = ["std", "software-rendering"] }
serde = { version = "1", features = ["derive"] }
serde_json = "1"
thiserror = "2"
dirs = "5"
rfd = { version = "0.15", default-features = false, features = ["xdg-portal", "tokio"] }
