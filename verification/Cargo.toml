[package]
name = "mnem-cli"
version = "0.1.0"
edition = "2021"
publish = false

[dependencies]
anyhow = "1"
chrono = "0.4"
clap = { version = "4", features = ["derive"] }
crossterm = "*"
dirs = "*"
notify = "*"
ratatui = "*"
reqwest = { version = "0.12", default-features = false, features = ["blocking", "json"] }
serde = { version = "1", features = ["derive"] }
serde_json = "1"
similar = "2"
syntect = { version = "5", default-features = false, features = ["default-fancy"] }
zip = { version = "*", default-features = false, features = ["deflate"] }
