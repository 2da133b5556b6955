[package]
name = "net_sync"
version = "0.1.0"
edition = "2021"
publish = false

[dependencies]
num-traits = "=0.2.19"
rand = "=0.9.5"
bevy = { version = "=0.17.3", default-features = false, features = ["std"] }
godot = "=0.5.5"
