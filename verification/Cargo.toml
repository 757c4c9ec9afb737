[package]
name = "world_clocks"
version = "0.1.0"
edition = "2021"
publish = false

[dependencies]
tzfile = "*"
walkdir = "*"
chrono = "*"
