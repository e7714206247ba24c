[package]
name = "glimpse_speech"
version = "0.1.0"
edition = "2021"

[dependencies]
serde_json = "1"
hound = "3"
libloading = "0.8"
