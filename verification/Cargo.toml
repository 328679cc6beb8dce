[package]
name = "glyph_png"
version = "0.1.0"
edition = "2021"
publish = false

[dependencies]
png = "=0.18.1"
windows = { version = "=0.58.0", features = ["Win32_Foundation", "Win32_Graphics_Direct2D", "Win32_Graphics_Direct2D_Common", "Win32_Graphics_DirectWrite"] }
