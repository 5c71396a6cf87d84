[package]
name = "led_effects"
version = "0.1.0"
edition = "2021"
publish = false

[dependencies]
rand = { version = "0.8", features = ["small_rng"] }
smart-leds = "*"
embedded-time = "*"
