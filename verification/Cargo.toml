[package]
name = "robocup_base_station"
version = "0.1.0"
edition = "2021"
publish = false

[dependencies]
robojackets-robocup-rtp = "=0.6.3"
ncomm-utils = "=1.1.4"
embedded-hal = "=0.2.7"
rppal = { version = "=0.14.1", features = ["hal"] }
ctrlc = "=3.5.2"
clap = { version = "=4.6.7", features = ["derive"] }
