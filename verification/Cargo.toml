[package]
name = "battle_royale_os"
version = "0.1.0"
edition = "2021"
publish = false

[dependencies]
glam = { version = "=0.34.2", default-features = false, features = ["libm"] }
libm = "=0.2.16"
spin = "=0.12.3"
x86_64 = "=0.14.13"
smoltcp = { version = "=0.14.0", default-features = false, features = ["alloc", "medium-ethernet", "proto-ipv4", "socket-udp"] }
limine = "=0.5.0"
talc = "=5.1.1"
