[package]
name = "ysos"
version = "0.1.0"
edition = "2021"
publish = false

[dependencies]
crossbeam-queue = "0.3"
bit_field = "0.10"
log = "0.4"
x86_64 = { version = "0.15", default-features = false, features = ["instructions"] }
x86 = "0.52"
spin = "0.9"
lazy_static = "1"
arrayvec = "0.7"
linked_list_allocator = "0.10"
xmas-elf = "*"
paste = "1"
uefi = "*"
