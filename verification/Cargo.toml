[package]
name = "pcf8523"
version = "0.1.0"
edition = "2021"
publish = false

[dependencies]
chrono = "0.4"
embedded-hal = "1.0"
