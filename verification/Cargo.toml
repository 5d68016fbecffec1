[package]
name = "system"
version = "0.1.0"
edition = "2021"
publish = false

[dependencies]
byteorder = { version = "1", default-features = false }
xmas-elf = "*"
multiboot2 = "*"
raw-cpuid = "*"
uefi = "*"
