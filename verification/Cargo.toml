[package]
name = "x86_kernel"
version = "0.1.0"
edition = "2021"
publish = false

[dependencies]
bitfield = "=0.20.0"
limine = "=0.5.0"
log = "=0.4.35"
spin = "=0.12.3"
lazy_static = "=1.5.1"
paste = "=1.0.15"
x86_64 = { version = "=0.15.5", default-features = false, features = ["instructions"] }
