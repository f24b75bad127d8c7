[package]
name = "kbd_backlight"
version = "0.1.0"
edition = "2021"
publish = false

[dependencies]
input = "0.6"
libc = "0.2"
notify = "4"
