[package]
name = "mitos_installer"
version = "0.1.0"
edition = "2021"
publish = false

[dependencies]
dialoguer = "*"
libc = "*"
log = "*"
serde = { version = "*", features = ["derive"] }
serde_json = "*"
simplelog = "*"
