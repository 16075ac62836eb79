[package]
name = "discord_decode"
version = "0.1.0"
edition = "2021"
publish = false

[dependencies]
postgres = "0.13"
serenity = "0.1"
time = "0.1"
