[package]
name = "offline_audio_context"
version = "0.1.0"
edition = "2021"
publish = false

[dependencies]
web-audio-api = { version = "*", default-features = false }
