[package]
name = "smol_world"
version = "0.1.0"
edition = "2021"
publish = false

[dependencies]
bevy = { version = "0.15", default-features = false, features = ["bevy_pbr", "bevy_winit", "x11", "tonemapping_luts", "multi_threaded"] }
