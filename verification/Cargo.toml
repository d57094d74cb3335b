[package]
name = "mockrobot"
version = "0.1.0"
edition = "2021"
publish = false

[dependencies]
rand = "*"
thiserror = "*"
uuid = { version = "*", features = ["v4"] }
