[package]
name = "deb_rust"
version = "0.1.0"
edition = "2021"

[dependencies]
ar = "*"
regex = "*"
tar = "*"
walkdir = "*"
xz = "*"
zstd = "*"
