[package]
name = "ecchan"
version = "0.1.0"
edition = "2021"
publish = false

[dependencies]
nix = { version = "*", features = ["user", "socket", "fs"] }
cobs = "*"
serde = { version = "1", features = ["derive"] }
serde_json = "1"
serde-big-array = "*"
snafu = "0.8"
strum = { version = "*", features = ["derive"] }
log = "0.4"
