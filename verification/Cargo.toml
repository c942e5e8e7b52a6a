[package]
name = "input_bridge"
version = "0.1.0"
edition = "2021"
publish = false

[dependencies]
makepad-widgets = "*"
