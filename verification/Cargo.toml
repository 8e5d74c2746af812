[package]
name = "myrtio_light"
version = "0.1.0"
edition = "2021"
publish = false

[dependencies]
smart-leds = "0.4"
heapless = "0.8"
serde = { version = "1", default-features = false, features = ["derive"] }
serde-json-core = "0.6"
