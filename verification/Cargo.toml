[package]
name = "fastfind"
version = "0.1.3"
edition = "2021"
publish = false

[dependencies]
regex = "1"
libc = "0.2"
jwalk = "0.8"
clap = "4"
