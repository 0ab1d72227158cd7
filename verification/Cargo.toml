[package]
name = "whatcable"
version = "0.1.0"
edition = "2021"
publish = false

[dependencies]
clap = { version = "4", features = ["derive"] }
serde = { version = "1", features = ["derive"] }
serde_json = "1"
udev = "0.9"
libc = "0.2"
zbus = "5"
