[package]
name = "miniverse"
version = "0.1.0"
edition = "2021"

[dependencies]
bevy = { version = "=0.7.0", default-features = false, features = ["render", "bevy_winit", "x11"] }
darling = "=0.13.4"
rand = "=0.8.8"
rand_distr = "=0.4.3"
