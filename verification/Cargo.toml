[package]
name = "rusty_player"
version = "0.1.0"
edition = "2021"
publish = false

[dependencies]
id3 = "=1.13.1"
image = { version = "=0.24.9", default-features = false, features = ["jpeg", "png"] }
rfd = { version = "=0.14.1", default-features = false }
rodio = "=0.17.3"
symphonia = "=0.5.5"
