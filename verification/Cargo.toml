[package]
name = "druid"
version = "0.1.0"
edition = "2021"
publish = false

[dependencies]
heapless = "0.5"
log = "0.4"
serde = { version = "1", features = ["derive"] }
keyboard-types = "*"
