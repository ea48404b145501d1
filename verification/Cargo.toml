[package]
name = "segment_display"
version = "0.1.0"
edition = "2021"
publish = false

[dependencies]
rp-pico = "=0.7.0"
rp2040-hal = "0.8"
cortex-m = "0.7"
cortex-m-rt = "0.7"
critical-section = "1"
embedded-hal = "0.2"
fugit = "0.3"
