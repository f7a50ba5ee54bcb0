[package]
name = "ohyper"
version = "0.1.0"
edition = "2021"
publish = false

[dependencies]
raw-cpuid = "=10.7.0"
x86 = "=0.52.0"
x86_64 = { version = "=0.14.13", default-features = false, features = ["instructions"] }
spin = "=0.9.9"
lazy_static = "=1.5.1"
log = "=0.4.35"
bootloader = { version = "=0.9.35", features = ["map_physical_memory"] }
