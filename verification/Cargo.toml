[package]
name = "dungeon_of_madness"
version = "0.1.0"
edition = "2021"
publish = false

[dependencies]
tinyrand = "*"
