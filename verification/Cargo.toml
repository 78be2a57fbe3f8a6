[package]
name = "slippi_game_reporter"
version = "0.1.0"
edition = "2021"
publish = false

[dependencies]
flate2 = "1"
serde_json = "1"
ureq = "2"
chksum = "*"
