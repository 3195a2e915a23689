[package]
name = "led_effects"
version = "0.1.0"
edition = "2021"
publish = false

[dependencies]
spatial_led = "0.2.0"
rand = "0.8"
crossterm = "0.28"
ratatui = "0.29"
