[package]
name = "nesemulator"
version = "0.1.0"
edition = "2021"
publish = false

[dependencies]
egui = "0.19"
epaint = "0.19"
gl = "0.14"
itertools = "0.10"
log = "0.4"
sdl2 = "0.35"
