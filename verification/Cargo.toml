[package]
name = "rust_nes"
version = "0.1.0"
edition = "2021"
publish = false

[dependencies]
crc32fast = "1"
log = "0.4"
sdl2 = "0.35"
zip = { version = "0.6", default-features = false, features = ["deflate"] }
