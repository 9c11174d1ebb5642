[package]
name = "qrfi"
version = "0.1.0"
edition = "2021"

[dependencies]
clap = { version = "4", features = ["derive"] }
image = "*"
qrcode = "*"

[dev-dependencies]
rand = "0.8"
