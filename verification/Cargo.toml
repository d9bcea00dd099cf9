[package]
name = "musical_keyboard"
version = "0.1.0"
edition = "2021"
publish = false

[dependencies]
pistoncore-input = "*"
pitch_calc = "=0.12.0"
