[package]
name = "ccs811"
version = "0.1.0"
edition = "2021"
publish = false

[dependencies]
i2cdev = "*"
nix = { version = "*", features = ["ioctl"] }
tokio = { version = "*", features = ["time"] }
