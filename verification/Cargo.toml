[package]
name = "gerber-types"
version = "0.2.0"
edition = "2021"
publish = false

[dependencies]
chrono = { version = "0.4", default-features = false, features = ["std"] }
conv = "0.3"
num-rational = { version = "0.4", default-features = false, features = ["std"] }
thiserror = "1"
uuid = "1"
