[package]
name = "i3c_target"
version = "0.1.0"
edition = "2021"
publish = false
