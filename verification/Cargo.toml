[package]
name = "sqa_engine"
version = "0.1.0"
edition = "2021"
publish = false

[dependencies]
arrayvec = "=0.7.8"
bounded-spsc-queue = "=0.3.0"
time = "=0.1.45"
uuid = { version = "=1.29.0", features = ["v4"] }
sqa-jack = "=0.6.1"
failure = "=0.1.8"
hound = "=3.5.1"
