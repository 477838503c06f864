[package]
name = "spark"
version = "1.1.0"
edition = "2021"
publish = false

[dependencies]
serial2 = "*"
serialport = { version = "*", default-features = false }
libadwaita = { version = "*", features = ["v1_6"] }
