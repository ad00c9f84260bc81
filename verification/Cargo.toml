[package]
name = "taskpanel"
version = "0.1.0"
edition = "2021"
publish = false

[dependencies]
serde = { version = "=1.0.229", features = ["derive"] }
serde_json = "=1.0.151"
toml = "=1.1.7"
libc = "=0.2.190"
reqwest = { version = "=0.13.5", default-features = false, features = ["blocking"] }
rppal = { version = "=0.22.1", features = ["embedded-hal"] }
ssd1306 = "=0.10.0"
embedded-graphics = "=0.8.2"
