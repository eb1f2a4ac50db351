[package]
name = "oxide_ui"
version = "0.1.0"
edition = "2021"
publish = false

[dependencies]
chrono = { version = "0.4", default-features = false, features = ["std"] }
crossterm = "0.27"
libc = "0.2"
