[package]
name = "bmi270_interface"
version = "0.1.0"
edition = "2021"
publish = false

[dependencies]
bmi270 = "*"
embedded-hal = "0.2"
embedded-hal-async = "*"
linux-embedded-hal = "0.3"
