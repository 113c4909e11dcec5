[package]
name = "rustberry_poe_monitor"
version = "0.1.0"
edition = "2021"

[dependencies]
anyhow = "*"
display-interface = "*"
embedded-graphics = "*"
env_logger = "*"
linux-embedded-hal = "*"
log = "*"
pcf857x = "*"
profont = "*"
serde = { version = "*", features = ["derive"] }
ssd1306 = "*"
sysinfo = "*"
toml = "*"
