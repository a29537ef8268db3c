[package]
name = "serial_link"
version = "0.1.0"
edition = "2021"
publish = false

[dependencies]
serialport = { version = "4", default-features = false }
eframe = { version = "=0.24.1", default-features = false, features = ["glow", "x11", "default_fonts"] }
