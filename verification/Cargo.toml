[package]
name = "audio_hook"
version = "0.1.0"
edition = "2021"
publish = false

[dependencies]
unicode-width = "=0.2.2"
rodio = { version = "=0.22.2", default-features = false, features = ["flac", "mp3", "mp4", "vorbis", "wav", "dither"] }
crossterm = "=0.29.0"
lofty = "=0.25.4"
log = "=0.4.34"
nu-plugin = "=0.114.1"
nu-protocol = "=0.114.1"
