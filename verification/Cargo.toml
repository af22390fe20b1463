[package]
name = "apollo"
version = "0.1.0"
edition = "2021"
publish = false

[dependencies]
chrono = "0.4"
clap = { version = "4", features = ["derive"] }
rand = "0.8"
reqwest = { version = "0.11", features = ["blocking", "json", "cookies"] }
serde = { version = "1", features = ["derive"] }
serde_json = "1"
visdom = "*"
