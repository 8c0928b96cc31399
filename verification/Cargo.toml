[package]
name = "level_meter"
version = "0.1.0"
edition = "2021"
publish = false

[dependencies]
cocoa = "0.26"
core-graphics = "0.24"
cpal = "0.15"
objc = "0.2"
