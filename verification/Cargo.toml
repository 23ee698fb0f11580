[package]
name = "proctor_core"
version = "0.1.0"
edition = "2021"
publish = false

[dependencies]
raw-cpuid = "*"
sysinfo = "*"
usb_enumeration = "*"
mac_address = "*"
