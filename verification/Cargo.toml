[package]
name = "smarst_fan"
version = "0.1.0"
edition = "2021"
publish = false

[dependencies]
config = "0.11"
glob = "*"
log = "*"
parking_lot = "*"
rumqttc = "*"
signal-hook = "*"
simple_logger = "*"
sysfs_gpio = "*"
sysfs-pwm = "*"
systemstat = "*"
