[package]
name = "disco_bird"
version = "0.1.0"
edition = "2021"
publish = false

[dependencies]
macroquad = "=0.4.16"
miniquad = "=0.4.11"
quad-snd = "=0.2.8"
rust-embed = { version = "=8.13.0", features = ["interpolate-folder-path"] }
