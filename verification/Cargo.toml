[package]
name = "ssd1331_async"
version = "0.1.0"
edition = "2021"
publish = false

[dependencies]
heapless = "0.8"
embedded-graphics-core = "0.4"
embedded-hal = "1"
embedded-hal-async = "1"
