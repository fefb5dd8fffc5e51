[package]
name = "grr_glyph"
version = "0.1.0"
edition = "2021"
publish = false

[dependencies]
glyph_brush = "0.6"
grr = "*"
