[package]
name = "sequential_integration"
version = "0.1.0"
edition = "2021"

[dependencies]
fehler = "1"
mexprp = { version = "0.3", default-features = false }
snafu = "0.6"
