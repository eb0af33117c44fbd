[package]
name = "clive"
version = "0.1.0"
edition = "2021"
publish = false

[dependencies]
clap = "2"
fs_extra = "1"
glob = "0.3"
sdl2 = { version = "*", features = ["image"] }
