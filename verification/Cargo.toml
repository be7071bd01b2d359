[package]
name = "super_mouse_ai"
version = "0.1.0"
edition = "2021"
publish = false

[dependencies]
nnnoiseless = { version = "*", default-features = false }
num_cpus = "*"
regex = "*"
rodio = "*"
whisper-rs = "*"
