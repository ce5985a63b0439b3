[package]
name = "audio_decoder"
version = "0.1.0"
edition = "2021"
publish = false

[dependencies]
symphonia = { version = "*", default-features = false }
