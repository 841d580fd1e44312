[package]
name = "dcore"
version = "0.1.0"
edition = "2021"
publish = false

[dependencies]
riscv = "*"
spin = "*"
lazy_static = { version = "1", features = ["spin_no_std"] }
linked_list_allocator = "*"
