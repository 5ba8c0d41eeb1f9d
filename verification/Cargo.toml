[package]
name = "motorball"
version = "0.1.0"
edition = "2021"
publish = false

[dependencies]
actix-web = "4"
serde = { version = "1", features = ["derive"] }
gilrs = "0.11"
evdev = "0.12"
serialport = { version = "4", default-features = false }
