[package]
name = "frame_counter"
version = "0.1.0"
edition = "2021"
publish = false

[dependencies]
minstant = "0.1"
quanta = "0.12"
