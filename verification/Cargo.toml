[package]
name = "canvas_cli"
version = "0.1.0"
edition = "2021"
publish = false

[dependencies]
serde = { version = "*", features = ["derive"] }
serde_json = "*"
reqwest = { version = "0.11", default-features = false, features = ["blocking", "json"] }
chrono = { version = "*", features = ["serde"] }
toml = "*"
xdg = "*"
clap = "*"
