[package]
name = "wildlink"
version = "0.1.0"
edition = "2021"
publish = false

[dependencies]
object = "*"
anyhow = "*"
bytemuck = "*"
rayon = "*"
