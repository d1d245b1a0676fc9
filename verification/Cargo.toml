[package]
name = "spotify_api"
version = "0.1.0"
edition = "2021"
publish = false

[dependencies]
serde = { version = "1", features = ["derive"] }
serde_json = "1"
percent-encoding = "1"
base64 = "0.13"
curl = "0.4"
chrono = { version = "0.4", features = ["serde"] }
rand = "0.8"
tiny_http = "0.12"
webbrowser = "*"
text_io = "0.1"
term-painter = "0.3"
