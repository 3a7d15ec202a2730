[package]
name = "lunar_lander_rl"
version = "0.1.0"
edition = "2021"
publish = false

[dependencies]
lazy_static = "1"
macroquad = "0.4"
ndarray = "*"
ndarray-rand = "*"
rand = "0.9"
strum = "*"
strum_macros = "*"
uom = "*"
