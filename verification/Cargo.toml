[package]
name = "midis_touch"
version = "0.1.0"
edition = "2021"
publish = false

[dependencies]
rustysynth = "*"
tinyaudio = "*"
midir = "*"
