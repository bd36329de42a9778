[package]
name = "ligen_cpp"
version = "0.1.0"
edition = "2021"
publish = false

[dependencies]
ligen = "=0.1.18"
