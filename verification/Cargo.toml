[package]
name = "blade_graphics"
version = "0.1.0"
edition = "2021"
publish = false

[dependencies]
slab = "0.4"
ash = "0.37"
gpu-alloc = "0.6"
log = "0.4"
