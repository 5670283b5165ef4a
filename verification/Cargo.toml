[package]
name = "audio_sharing_pc"
version = "0.1.0"
edition = "2021"
publish = false

[dependencies]
clap = "2"
hound = "3"
libc = "0.2"
mio = "0.6"
signal-hook = "0.1"
