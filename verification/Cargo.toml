[package]
name = "winter_lily"
version = "0.1.0"
edition = "2021"
publish = false

[dependencies]
uuid = { version = "=1.27.0", features = ["v5"] }
rustix = { version = "=1.1.5", features = ["fs", "thread", "process", "mm"] }
linux-errno = "=1.1.0"
