[package]
name = "p5_rs"
version = "0.1.0"
edition = "2021"
publish = false

[dependencies]
euclid = "*"
lyon_geom = "*"
raqote = "*"
minifb = "*"
font-kit = "*"
