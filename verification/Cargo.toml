[package]
name = "follower_fetch"
version = "0.1.0"
edition = "2021"
publish = false

[dependencies]
color-eyre = "*"
egg-mode = "*"
futures = "*"
structopt = "*"
tokio = { version = "*", features = ["macros", "rt-multi-thread", "time"] }
