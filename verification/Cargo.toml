[package]
name = "c3aznable"
version = "0.1.0"
edition = "2021"
publish = false

[dependencies]
lcd = "*"
smart-leds = "*"
ws2812-esp32-rmt-driver = { version = "*", features = ["smart-leds-trait"] }
esp-idf-svc = "*"
log = "*"
