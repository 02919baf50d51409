[package]
name = "breakout"
version = "0.1.0"
edition = "2021"

[dependencies]
bevy = "0.1"
bevy_rapier3d = "0.1"
