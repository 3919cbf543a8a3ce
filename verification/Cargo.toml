[package]
name = "pico_12vrgb_ctrl"
version = "0.1.0"
edition = "2021"
publish = false

[dependencies]
csscolorparser = "*"
clap = { version = "*", features = ["derive"] }
