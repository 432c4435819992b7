[package]
name = "mk20dx-hal"
version = "0.2.0"
edition = "2021"
publish = false

[dependencies]
cortex-m = "0.7"
embedded-hal = "1.0"
embedded-hal-nb = "1.0"
embedded-io = "*"
embedded-storage = "0.3"
fugit = "*"
nb = "1"
usb-device = "0.3"
