[package]
name = "hitch"
version = "0.1.0"
edition = "2021"
publish = false

[dependencies]
carrier = "*"
env_logger = "*"
linux-embedded-hal = "*"
osaka = "*"
pwm-pca9685 = "*"
stick = "*"
