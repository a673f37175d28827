[package]
name = "scrolldemo"
version = "0.1.0"
edition = "2021"
publish = false

[dependencies]
gleam = "=0.15.1"
glutin = "=0.32.3"
webrender = "=0.70.0"
winit = "*"
