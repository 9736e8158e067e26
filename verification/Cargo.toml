[package]
name = "xcb_util_cursor"
version = "0.3.0"
edition = "2021"
publish = false

[dependencies]
xcb = "*"
xcb-util-cursor-sys = "*"
