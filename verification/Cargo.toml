[package]
name = "clashbar"
version = "0.1.0"
edition = "2021"
publish = false

[dependencies]
bytesize = "1"
regex = "*"
serde_json = "*"
clap = { version = "*", features = ["derive"] }
clashctl-core = "*"
