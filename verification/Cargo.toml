[package]
name = "radio_beacon"
version = "0.1.0"
edition = "2021"
publish = false

[dependencies]
cc1101 = "0.1.3"
embedded-hal = "1.0.0"
embedded-hal-bus = "0.3.0"
panic-halt = "1.0.0"
ufmt = "0.2.0"
