[package]
name = "goldboot"
version = "0.1.0"
edition = "2021"
publish = false

[dependencies]
serde = { version = "1", features = ["derive"] }
serde_json = "1"
rand = "0.8"
validator = { version = "0.16", features = ["derive"] }
ubyte = "0.10"
dialoguer = "0.11"
quick-xml = { version = "0.31", features = ["serialize"] }
serde_win_unattend = "*"
goldboot-image = "*"
