[package]
name = "meshgen"
version = "0.1.0"
edition = "2021"
publish = false

[dependencies]
noise = "*"
rand = "*"
lyon_geom = "*"
rayon = "*"
half = "*"
