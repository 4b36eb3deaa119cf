[package]
name = "uniclip"
version = "0.1.0"
edition = "2021"
publish = false

[dependencies]
arboard = "3"
clap = { version = "4", features = ["derive"] }
image = { version = "0.25", default-features = false, features = ["png"] }
log = "0.4"
pretty_env_logger = "0.5"
rand = { version = "0.9", features = ["small_rng"] }
tokio = { version = "1", features = ["full"] }
tokio-util = { version = "0.7", features = ["rt"] }
zerocopy = "0.8"
