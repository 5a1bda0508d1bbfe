[package]
name = "echotune"
version = "0.1.0"
edition = "2021"
publish = false

[dependencies]
basic-toml = "0.1"
serde = { version = "1", features = ["derive"] }
lazy_static = "1"
parking_lot = "0.12"
rodio = "0.20"
terminal_size = "0.4"
termios = "0.3"
