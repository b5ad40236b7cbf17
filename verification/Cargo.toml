[package]
name = "wr"
version = "0.1.0"
edition = "2021"
publish = false

[dependencies]
ttf-parser = "=0.25.1"
font-loader = "=0.2.0"
webrender = "=0.70.0"
winit = "=0.30.13"
surfman = "=0.14.0"
gleam = "=0.15.1"
euclid = "=0.22.14"
log = "=0.4.34"
libc = "=0.2.191"
futures = "=0.3.34"
lazy_static = "=1.5.1"
