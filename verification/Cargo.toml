[package]
name = "kernel"
version = "0.1.0"
edition = "2021"
publish = false

[dependencies]
arrayvec = { version = "=0.7.8", default-features = false }
spin = "=0.9.9"
itertools = { version = "=0.10.5", default-features = false }
limine = "0.5"
lazy_static = { version = "=1.5.1", features = ["spin_no_std"] }
static_assertions = "=1.1.0"
elain = "=0.3.1"
cfg-if = "=1.0.5"
