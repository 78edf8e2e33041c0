[package]
name = "dawpresence"
version = "0.1.0"
edition = "2021"
publish = false

[dependencies]
regex = "*"
discord-rich-presence = "*"
serde = { version = "*", features = ["derive"] }
serde_json = "*"
sysinfo = "*"
x11rb = "*"
