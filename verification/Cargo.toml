[package]
name = "reset_bench"
version = "0.1.0"
edition = "2021"
publish = false

[dependencies]
plotters = { version = "*", default-features = false, features = ["bitmap_backend", "bitmap_encoder", "ab_glyph", "line_series", "full_palette"] }
