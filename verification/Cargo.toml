[package]
name = "rxpipes"
version = "0.1.0"
edition = "2021"
publish = false

[dependencies]
clap = { version = "*", features = ["derive"] }
eyre = "*"
hex_color = "*"
rand = "*"
termwiz = "*"
unicode-segmentation = "*"
