[package]
name = "antboot"
version = "0.1.0"
edition = "2021"
publish = false

[dependencies]
elf = "*"
uefi = "0.20"
