[package]
name = "claudio"
version = "0.3.0"
edition = "2021"
publish = false

[dependencies]
anyhow = "=1.0.104"
byteorder = "=1.5.0"
clap = { version = "=4.6.7", features = ["derive"] }
cpal = "=0.15.3"
dasp_sample = "=0.11.0"
rusty-vban = "=0.6.1"
