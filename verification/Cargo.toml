[package]
name = "covey_asset_loader"
version = "0.1.0"
edition = "2021"
publish = false

[dependencies]
bevy = { version = "0.10", default-features = false, features = ["bevy_asset"] }
proc-macro2 = "1"
quote = "1"
syn = "2"
