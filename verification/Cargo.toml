[package]
name = "discord_game_sdk"
version = "0.1.0"
edition = "2021"
publish = false

[dependencies]
shrev = "=1.1.3"
log = "=0.4.34"
