[package]
name = "death_inc"
version = "0.1.0"
edition = "2021"
publish = false

[dependencies]
indexmap = "1"
num-format = "0.4"
stdweb = "0.4"
yew = "0.6"
