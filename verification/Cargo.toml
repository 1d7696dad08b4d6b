[package]
name = "space_miner"
version = "0.1.0"
edition = "2021"
publish = false

[dependencies]
bevy = { version = "0.13", default-features = false }
bevy_xpbd_2d = { version = "0.4", default-features = false, features = ["2d", "f32", "parry-f32"] }
rand = "0.8"
