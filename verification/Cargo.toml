[package]
name = "spot_player"
version = "0.1.0"
edition = "2021"
publish = false

[dependencies]
futures = "0.3"
librespot = { version = "0.4.2", default-features = false }
tokio = { version = "1", features = ["rt"] }
