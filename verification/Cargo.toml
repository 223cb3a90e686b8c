[package]
name = "mx-xkcd-ng"
version = "0.1.0"
edition = "2021"
publish = false

[dependencies]
chrono = { version = "=0.4.45", default-features = false, features = ["std", "clock", "serde"] }
dotenv = "=0.15.0"
failure = "=0.1.8"
futures = "=0.1.31"
glitch-in-the-matrix = "=0.14.0"
hyper = { version = "=1.12.0", default-features = false }
image = { version = "=0.25.10", default-features = false, features = ["bmp", "gif", "hdr", "ico", "jpeg", "png", "pnm", "tiff", "webp"] }
regex = "=1.13.1"
serde = { version = "=1.0.229", features = ["derive"] }
serde_derive = "=1.0.229"
serde_json = "=1.0.154"
tokio-core = "=0.1.18"
tokio-timer = "=0.1.2"
