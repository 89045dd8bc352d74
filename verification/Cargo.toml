[package]
name = "predator_sense"
version = "0.1.0"
edition = "2021"
publish = false

[dependencies]
gtk4 = "0.9"
libadwaita = "0.7"
