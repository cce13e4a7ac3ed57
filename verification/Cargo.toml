[package]
name = "memories"
version = "0.1.0"
edition = "2021"
publish = false

[dependencies]
md-5 = "*"
serde = { version = "1", features = ["derive"] }
serde_json = "1"
async-fs = "*"
async-channel = "*"
async-semaphore = "*"
cfg-if = "1"
gettext-rs = "*"
gtk4 = "*"
libadwaita = "*"
glycin = "*"
