[package]
name = "xcolor"
version = "0.1.0"
edition = "2021"
publish = false

[dependencies]
anyhow = "=1.0.104"
x11 = "=2.21.0"
xcb = { version = "=0.9.0", features = ["xlib_xcb"] }
