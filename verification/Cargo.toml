[package]
name = "maze_of_many_missiles"
version = "0.1.0"
edition = "2021"
publish = false

[dependencies]
bevy = { version = "0.12", default-features = false }
bevy_turborand = "0.7"
clap = { version = "4", features = ["derive"] }
dolly = "0.4"
ordered-float = "4"
