[package]
name = "chooser_collector"
version = "0.1.0"
edition = "2021"
publish = false

[dependencies]
colorsys = "*"
crossbeam = "*"
eyre = "*"
pico-args = "*"
serde = { version = "*", features = ["derive"] }
serde_json = "*"
twitch_chat_wrapper = "*"
