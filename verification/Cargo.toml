[package]
name = "reflections"
version = "0.1.0"
edition = "2021"
publish = false

[dependencies]
glam = "*"
macroquad = "*"
egui-macroquad = "*"
enum_dispatch = "*"
raylib = "*"
