[package]
name = "epd_custom"
version = "0.1.0"
edition = "2021"
publish = false

[dependencies]
epd-waveshare = "=0.5.0"
embedded-hal = "=0.2.7"
embedded-graphics = "=0.7.1"
st7735-lcd = "=0.9.0"
critical-section = "=1.2.0"
