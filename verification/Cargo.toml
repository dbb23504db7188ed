[package]
name = "stasis"
version = "0.1.0"
edition = "2021"
publish = false

[dependencies]
eyre = "0.6"
futures = "0.3"
futures-util = "0.3"
mpris = "2"
regex = "1"
rune-cfg = "*"
tokio = { version = "1", features = ["full"] }
zbus = { version = "5", default-features = false, features = ["tokio"] }
