[package]
name = "chess_rules"
version = "0.1.0"
edition = "2021"
publish = false

[dependencies]
base64 = "0.13"
brotli = "3.3"
macroquad = "0.3"
sapp-jsutils = "0.1"
