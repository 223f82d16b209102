[package]
name = "rustberry-poe-monitor"
version = "0.1.0"
edition = "2021"
publish = false

[dependencies]
embedded-graphics = "0.8"
env_logger = "*"
linux-embedded-hal = "*"
log = "0.4"
serde = { version = "1", features = ["derive"] }
ssd1306 = "*"
sysinfo = "*"
toml = "*"
