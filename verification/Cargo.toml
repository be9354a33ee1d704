[package]
name = "raytracer3"
version = "0.1.0"
edition = "2021"
publish = false

[dependencies]
fastrand = "=2.5.0"
png = "=0.18.1"
rayon = "=1.12.0"
smolmatrix = "=0.1.9"
