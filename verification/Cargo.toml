[package]
name = "audio_loop"
version = "0.1.0"
edition = "2021"
publish = false

[dependencies]
coreaudio-rs = "0.12"
cpal = "0.16"
rtrb = "0.3"
thiserror = "2"
