[package]
name = "bouncing_ball"
version = "0.1.0"
edition = "2021"
publish = false

[dependencies]
egui = "=0.31.1"
egui-macroquad = "=0.17.3"
macroquad = "=0.4.16"
