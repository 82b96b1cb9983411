[package]
name = "midi_controller"
version = "0.1.0"
edition = "2021"
publish = false

[dependencies]
midir = "=0.10.4"
