[package]
name = "embedded-sgp30"
version = "0.1.0"
edition = "2021"
publish = false

[dependencies]
crc = "3"
embedded-hal = "1"
embedded-hal-async = "1"
micromath = "2"
