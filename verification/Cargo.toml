[package]
name = "smush"
version = "0.1.0"
edition = "2021"
publish = false

[dependencies]
bs58 = "0.5"
bincode = "1"
brotli = "*"
bzip2 = "*"
flate2 = "1"
lz4 = "*"
xz2 = { version = "0.1", features = ["static"] }
zstd = "*"
