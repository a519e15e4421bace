[package]
name = "kfs_v2"
version = "0.1.0"
edition = "2021"
publish = false

[dependencies]
x86_64 = { version = "=0.14.13", default-features = false, features = ["instructions"] }
crossbeam-queue = { version = "=0.3.14", default-features = false, features = ["alloc"] }
pc-keyboard = "=0.5.1"
spin = "=0.5.2"
lazy_static = "=1.5.1"
conquer-once = { version = "=0.4.0", default-features = false }
futures-util = { version = "=0.3.34", default-features = false, features = ["alloc"] }
pic8259 = "=0.10.4"
volatile = "=0.2.7"
bootloader = "=0.9.35"
