[package]
name = "sympho"
version = "0.1.0"
edition = "2021"
publish = false

[dependencies]
audiotags = "0.5.0"
rfd = "0.17.2"
rodio = "0.23.0"
slint = { version = "1.18.1", default-features = false, features = ["compat-1-2", "std"] }
symphonia = "0.5.5"
