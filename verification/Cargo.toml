[package]
name = "morse_trainer"
version = "0.1.0"
edition = "2021"
publish = false

[dependencies]
crossterm = "*"
device_query = "*"
rand = "0.8"
serde_json = "1"
