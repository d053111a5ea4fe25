[package]
name = "crankstart_graphics"
version = "0.1.0"
edition = "2021"
publish = false

[dependencies]
anyhow = "*"
crankstart-sys = "*"
cstr_core = "*"
euclid = "*"
hashbrown = "*"
