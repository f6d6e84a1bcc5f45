[package]
name = "codec_bench"
version = "0.1.0"
edition = "2021"
publish = false

[dependencies]
flate2 = "=1.1.10"
deflate = { version = "=1.0.0", features = ["gzip"] }
libflate = "=2.3.2"
inflate = "=0.4.5"
miniz_oxide = "=0.9.1"
gzip-header = "=1.1.0"
