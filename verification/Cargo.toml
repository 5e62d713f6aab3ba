[package]
name = "emulator_rs"
version = "0.1.0"
edition = "2021"
publish = false

[dependencies]
xmas-elf = "*"
