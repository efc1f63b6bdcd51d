[package]
name = "rlicker"
version = "0.1.0"
edition = "2021"
publish = false

[dependencies]
evdev = "0.12"
fltk = "1"
rand = "0.8"
