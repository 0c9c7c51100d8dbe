[package]
name = "simple_chess_dragging"
version = "0.1.0"
edition = "2021"
publish = false

[dependencies]
glib = "*"
gtk4 = "*"
image = { version = "*", default-features = false, features = ["png"] }
resvg = "*"
