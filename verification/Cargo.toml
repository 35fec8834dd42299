[package]
name = "tilt_level"
version = "0.1.0"
edition = "2021"
publish = false

[dependencies]
cortex-m = "0.7"
cortex-m-rt = "0.7"
embedded-hal = "1"
lsm303agr = "1"
microbit-v2 = "*"
rtt-target = "*"
