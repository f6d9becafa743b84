[package]
name = "servo_face"
version = "0.1.0"
edition = "2021"
publish = false

[dependencies]
gilrs = "*"
serialport = "*"
