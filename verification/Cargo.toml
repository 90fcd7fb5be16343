[package]
name = "lotus_core"
version = "0.1.0"
edition = "2021"
publish = false

[dependencies]
serde = { version = "*", features = ["derive"] }
serde_json = "*"
rmp-serde = "*"
uuid = { version = "*", features = ["v4"] }
url = "*"
dirs = "*"
tiny_http = "*"
mime_guess = "*"
