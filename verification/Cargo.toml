[package]
name = "dyn_pwm"
version = "0.1.0"
edition = "2021"
publish = false

[dependencies]
embedded-hal = "0.2"
rp2040-pac = "0.4"
