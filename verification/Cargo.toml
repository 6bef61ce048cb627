[package]
name = "music_player"
version = "0.1.0"
edition = "2021"
publish = false

[dependencies]
lofty = "0.18"
rodio = "0.17"
serde = { version = "1", features = ["derive"] }
