[package]
name = "arduino_uno_r4_hal"
version = "0.1.0"
edition = "2021"
publish = false

[dependencies]
cortex-m = "0.7"
embedded-hal = "1.0"
fugit = "0.3"
ra4m1 = "*"
