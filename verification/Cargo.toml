[package]
name = "mdview"
version = "0.1.0"
edition = "2021"
publish = false

[dependencies]
comrak = "*"
clap = { version = "*", features = ["derive"] }
dirs = "*"
gtk4 = "*"
serde = { version = "*", features = ["derive"] }
serde_json = "*"
webkit6 = "*"
