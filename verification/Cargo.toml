[package]
name = "tristage"
version = "0.1.0"
edition = "2021"
publish = false

[dependencies]
cgmath = "=0.18.0"
gl = "=0.14.0"
glutin = "=0.29.1"
