[package]
name = "zeroos"
version = "0.1.0"
edition = "2021"
publish = false

[dependencies]
libc = "0.2"
buddy_system_allocator = "*"
clap = { version = "4", features = ["derive"] }
clap-cargo = "*"
derive_builder = "*"
log = "0.4"
serde = { version = "1", features = ["derive"] }
serde_yaml = "0.9"
