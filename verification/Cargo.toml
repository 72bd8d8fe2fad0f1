[package]
name = "mental_calc"
version = "0.1.0"
edition = "2021"
publish = false

[dependencies]
rand = "0.8"
boxfnonce = "0.1"
num-traits = "0.2"
dialoguer = { version = "*", default-features = false }
