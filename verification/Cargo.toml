[package]
name = "imgconv"
version = "0.1.0"
edition = "2021"
publish = false

[dependencies]
image = "=0.25.10"
imagequant = "=4.4.1"
webpx = "=0.4.0"
infer = "=0.22.0"
